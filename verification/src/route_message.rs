//! Messages of the routing family as a caller puts them together: a header of
//! the family and the attributes behind it.

use vstd::prelude::*;
use crate::error::{Error, Field, Result, Unencodable};
use crate::route_attr::RouteAttrType;
use crate::serialize::{pad4, pad_to_align4, push_u16, u16_bytes, Serialize};

verus! {

/// A route attribute to be sent: its tag and its payload as bytes.
#[derive(Clone, Debug, PartialEq, Eq)]
pub struct RouteAttr {
    /// The length of the attribute's header and payload together.
    pub len: u16,
    pub typ: RouteAttrType,
    pub value: Vec<u8>,
}

impl RouteAttr {
    /// The length says what the attribute holds: four bytes of header and
    /// the payload.
    pub open spec fn wf(&self) -> bool {
        self.len == 4 + self.value@.len()
    }

    /// A builder with neither tag nor value.
    pub fn builder<T: Serialize>() -> (b: RouteAttrBuilder<T>)
        ensures
            b.typ is None,
            b.value is None,
    {
        RouteAttrBuilder::new()
    }
}

impl Serialize for RouteAttr {
    open spec fn wire(&self) -> Seq<u8> {
        u16_bytes(self.len) + u16_bytes(self.typ.tag()) + self.value@
    }

    fn serialize(&self) -> (bytes: Vec<u8>) {
        let mut bytes: Vec<u8> = Vec::new();
        push_u16(&mut bytes, self.len);
        push_u16(&mut bytes, self.typ.into());
        bytes.extend_from_slice(self.value.as_slice());
        bytes
    }
}

/// Builds a [`RouteAttr`] from a tag and a value with a wire form.
pub struct RouteAttrBuilder<T> {
    pub typ: Option<RouteAttrType>,
    pub value: Option<T>,
}

impl<T: Serialize> RouteAttrBuilder<T> {
    pub fn new() -> (b: Self)
        ensures
            b.typ is None,
            b.value is None,
    {
        Self { typ: None, value: None }
    }

    pub fn typ(self, typ: RouteAttrType) -> (b: Self)
        ensures
            b.typ == Some(typ),
            b.value == self.value,
    {
        Self { typ: Some(typ), value: self.value }
    }

    pub fn value(self, value: T) -> (b: Self)
        ensures
            b.typ == self.typ,
            b.value == Some(value),
    {
        Self { typ: self.typ, value: Some(value) }
    }

    /// The attribute with the tag that was set and the wire form of the
    /// value that was set. The tag is asked for first, then the value; a
    /// wire form of more than 65531 bytes fits no attribute.
    pub fn build(self) -> (r: Result<RouteAttr>)
        ensures
            self.typ is None ==> r == Err::<RouteAttr, Error>(Error::ErrMissingField(Field::Type)),
            self.typ is Some && self.value is None ==> r == Err::<RouteAttr, Error>(
                Error::ErrMissingField(Field::Value),
            ),
            self.typ is Some && self.value is Some && self.value.unwrap().wire().len() > 65531
                ==> r == Err::<RouteAttr, Error>(
                Error::ErrSerialize(
                    Unencodable::AttributePayload(self.value.unwrap().wire().len() as usize),
                ),
            ),
            self.typ is Some && self.value is Some && self.value.unwrap().wire().len() <= 65531
                ==> r is Ok && r.unwrap().wf() && r.unwrap().typ == self.typ.unwrap()
                && r.unwrap().value@ == self.value.unwrap().wire(),
    {
        let typ = match self.typ {
            Some(typ) => typ,
            None => {
                return Err(Error::ErrMissingField(Field::Type));
            },
        };
        let value = match self.value {
            Some(value) => value.serialize(),
            None => {
                return Err(Error::ErrMissingField(Field::Value));
            },
        };
        if value.len() > 65531 {
            return Err(Error::ErrSerialize(Unencodable::AttributePayload(value.len())));
        }
        Ok(RouteAttr { len: (4 + value.len()) as u16, typ, value })
    }
}

/// The attributes of a message one after the other, each padded to a
/// multiple of four bytes.
pub open spec fn attrs_wire(attrs: Seq<RouteAttr>) -> Seq<u8>
    decreases attrs.len(),
{
    if attrs.len() == 0 {
        Seq::empty()
    } else {
        attrs_wire(attrs.drop_last()) + pad4(attrs.last().wire())
    }
}

/// A message of the routing family: a header and attributes.
#[derive(Clone, Debug, PartialEq, Eq)]
pub struct RouteMessage<H> {
    pub header: H,
    pub attrs: Vec<RouteAttr>,
}

impl<H: Serialize> RouteMessage<H> {
    /// A builder with no header and no attributes.
    pub fn builder() -> (b: RouteMessageBuilder<H>)
        ensures
            b.header is None,
            b.attrs@ == Seq::<RouteAttr>::empty(),
    {
        RouteMessageBuilder::new()
    }

    /// The payload of the message: the padded header, then the padded
    /// attributes.
    pub open spec fn payload(&self) -> Seq<u8> {
        pad4(self.header.wire()) + attrs_wire(self.attrs@)
    }

    /// Whether the padded length of the header and of every attribute is a
    /// `usize`.
    pub open spec fn fits(&self) -> bool {
        &&& self.header.wire().len() + 3 <= usize::MAX
        &&& forall|i: int|
            0 <= i < self.attrs@.len() ==> (#[trigger] self.attrs@[i]).wire().len() + 3
                <= usize::MAX
    }

    /// Writes the payload of the message. The one thing that can fail is a
    /// header or an attribute whose padded wire form is too long for a
    /// `usize`.
    pub fn serialize(&self) -> (r: Result<Vec<u8>>)
        ensures
            self.fits() ==> r is Ok && r.unwrap()@ == self.payload(),
            !self.fits() ==> r == Err::<Vec<u8>, Error>(Error::ErrValueConversion),
    {
        let mut bytes = self.header.serialize();
        if bytes.len() > usize::MAX - 3 {
            return Err(Error::ErrValueConversion);
        }
        pad_to_align4(&mut bytes);
        let mut i: usize = 0;
        while i < self.attrs.len()
            invariant
                i <= self.attrs@.len(),
                self.header.wire().len() + 3 <= usize::MAX,
                forall|k: int|
                    0 <= k < i ==> (#[trigger] self.attrs@[k]).wire().len() + 3 <= usize::MAX,
                bytes@ == pad4(self.header.wire()) + attrs_wire(self.attrs@.take(i as int)),
            decreases self.attrs@.len() - i,
        {
            let mut attr = self.attrs[i].serialize();
            if attr.len() > usize::MAX - 3 {
                return Err(Error::ErrValueConversion);
            }
            pad_to_align4(&mut attr);
            bytes.append(&mut attr);
            proof {
                let next = self.attrs@.take(i + 1);
                assert(next.drop_last() =~= self.attrs@.take(i as int));
            }
            i += 1;
        }
        assert(self.attrs@.take(i as int) =~= self.attrs@);
        Ok(bytes)
    }
}

/// Builds a [`RouteMessage`] from a header and attributes.
pub struct RouteMessageBuilder<H> {
    pub header: Option<H>,
    pub attrs: Vec<RouteAttr>,
}

impl<H: Serialize> RouteMessageBuilder<H> {
    pub fn new() -> (b: Self)
        ensures
            b.header is None,
            b.attrs@ == Seq::<RouteAttr>::empty(),
    {
        Self { header: None, attrs: Vec::new() }
    }

    pub fn header(self, header: H) -> (b: Self)
        ensures
            b.header == Some(header),
            b.attrs == self.attrs,
    {
        Self { header: Some(header), attrs: self.attrs }
    }

    pub fn attrs(self, attrs: Vec<RouteAttr>) -> (b: Self)
        ensures
            b.header == self.header,
            b.attrs == attrs,
    {
        Self { header: self.header, attrs }
    }

    /// The message with the header and the attributes that were set. A
    /// message has to have a header.
    pub fn build(self) -> (r: Result<RouteMessage<H>>)
        ensures
            self.header is None ==> r == Err::<RouteMessage<H>, Error>(
                Error::ErrMissingField(Field::Header),
            ),
            self.header is Some ==> r == Ok::<RouteMessage<H>, Error>(
                RouteMessage { header: self.header.unwrap(), attrs: self.attrs },
            ),
    {
        match self.header {
            Some(header) => Ok(RouteMessage { header, attrs: self.attrs }),
            None => Err(Error::ErrMissingField(Field::Header)),
        }
    }
}

} // verus!
