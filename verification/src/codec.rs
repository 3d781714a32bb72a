//! The property codec: a pure, bidirectional mapping between the host's
//! dynamic scalar kind and the broker's typed property value.
//!
//! The host can hold exactly these kinds: empty, boolean, 32-bit integer,
//! 64-bit float, date-time, text, and binary blob.  Floating-point values
//! never appear here as numbers: the shell around this crate hands a float
//! in as its IEEE-754 bit pattern, and a float produced by integer widening
//! leaves as the integer it must equal, so that the codec's decisions stay
//! in verified integer code.

use vstd::prelude::*;

use crate::error::SessionError;

verus! {

/// A typed broker property value.
///
/// `Float` and `Double` carry IEEE-754 bit patterns; `Timestamp` carries
/// milliseconds since the Unix epoch; `Uuid` carries the sixteen raw bytes.
#[derive(Clone, Debug)]
pub enum PropertyValue {
    Null,
    Boolean(bool),
    Ubyte(u8),
    Ushort(u16),
    Uint(u32),
    Ulong(u64),
    Byte(i8),
    Short(i16),
    Int(i32),
    Long(i64),
    Float(u32),
    Double(u64),
    Char(char),
    Timestamp(i64),
    Uuid([u8; 16]),
    Binary(Vec<u8>),
    Str(String),
    Symbol(String),
}

/// The mathematical model of a broker property value.
pub enum PropertyModel {
    Null,
    Boolean(bool),
    Ubyte(u8),
    Ushort(u16),
    Uint(u32),
    Ulong(u64),
    Byte(i8),
    Short(i16),
    Int(i32),
    Long(i64),
    Float(u32),
    Double(u64),
    Char(char),
    Timestamp(i64),
    Uuid(Seq<u8>),
    Binary(Seq<u8>),
    Str(Seq<char>),
    Symbol(Seq<char>),
}

impl View for PropertyValue {
    type V = PropertyModel;

    open spec fn view(&self) -> PropertyModel {
        match self {
            PropertyValue::Null => PropertyModel::Null,
            PropertyValue::Boolean(b) => PropertyModel::Boolean(*b),
            PropertyValue::Ubyte(x) => PropertyModel::Ubyte(*x),
            PropertyValue::Ushort(x) => PropertyModel::Ushort(*x),
            PropertyValue::Uint(x) => PropertyModel::Uint(*x),
            PropertyValue::Ulong(x) => PropertyModel::Ulong(*x),
            PropertyValue::Byte(x) => PropertyModel::Byte(*x),
            PropertyValue::Short(x) => PropertyModel::Short(*x),
            PropertyValue::Int(x) => PropertyModel::Int(*x),
            PropertyValue::Long(x) => PropertyModel::Long(*x),
            PropertyValue::Float(x) => PropertyModel::Float(*x),
            PropertyValue::Double(x) => PropertyModel::Double(*x),
            PropertyValue::Char(c) => PropertyModel::Char(*c),
            PropertyValue::Timestamp(t) => PropertyModel::Timestamp(*t),
            PropertyValue::Uuid(b) => PropertyModel::Uuid(b@),
            PropertyValue::Binary(b) => PropertyModel::Binary(b@),
            PropertyValue::Str(s) => PropertyModel::Str(s@),
            PropertyValue::Symbol(s) => PropertyModel::Symbol(s@),
        }
    }
}

/// A host 64-bit float, as verified code can hold it.
///
/// `Bits` is the representation the host shell hands in.  The other forms
/// arise only from widening a broker value whose bit pattern this crate
/// cannot compute without floating-point arithmetic; the shell performs
/// the final numeric conversion they call for.
#[derive(Clone, Copy, Debug, PartialEq, Eq, Structural)]
pub enum DoubleValue {
    /// The IEEE-754 bit pattern of the float itself.
    Bits(u64),
    /// The float nearest this unsigned integer.
    OfUnsigned(u64),
    /// The float nearest this signed integer.
    OfSigned(i64),
    /// The widening of the 32-bit float with this bit pattern.
    OfFloatBits(u32),
}

/// A host dynamic scalar.  `Date` carries milliseconds since the Unix epoch.
#[derive(Clone, Debug)]
pub enum DynamicValue {
    Empty,
    Bool(bool),
    Int(i32),
    Double(DoubleValue),
    Date(i64),
    Str(String),
    Blob(Vec<u8>),
}

/// The mathematical model of a host dynamic scalar.
pub enum DynamicModel {
    Empty,
    Bool(bool),
    Int(i32),
    Double(DoubleValue),
    Date(i64),
    Str(Seq<char>),
    Blob(Seq<u8>),
}

impl View for DynamicValue {
    type V = DynamicModel;

    open spec fn view(&self) -> DynamicModel {
        match self {
            DynamicValue::Empty => DynamicModel::Empty,
            DynamicValue::Bool(b) => DynamicModel::Bool(*b),
            DynamicValue::Int(x) => DynamicModel::Int(*x),
            DynamicValue::Double(d) => DynamicModel::Double(*d),
            DynamicValue::Date(t) => DynamicModel::Date(*t),
            DynamicValue::Str(s) => DynamicModel::Str(s@),
            DynamicValue::Blob(b) => DynamicModel::Blob(b@),
        }
    }
}

impl DynamicModel {
    /// Whether the host shell can hand this value in: every kind it holds,
    /// with a float always given as its own bit pattern.
    pub open spec fn host_producible(self) -> bool {
        match self {
            DynamicModel::Double(d) => d is Bits,
            _ => true,
        }
    }
}

/// What `to_broker` returns: the broker property carrying the host value,
/// or nothing where no property can carry it.
pub open spec fn to_broker_model(v: DynamicModel) -> Option<PropertyModel> {
    match v {
        DynamicModel::Empty => Some(PropertyModel::Null),
        DynamicModel::Bool(b) => Some(PropertyModel::Boolean(b)),
        DynamicModel::Int(x) => Some(PropertyModel::Int(x)),
        DynamicModel::Double(DoubleValue::Bits(b)) => Some(PropertyModel::Double(b)),
        DynamicModel::Double(_) => None,
        DynamicModel::Date(t) => Some(PropertyModel::Timestamp(t)),
        DynamicModel::Str(s) => Some(PropertyModel::Str(s)),
        DynamicModel::Blob(b) => Some(PropertyModel::Binary(b)),
    }
}

/// What `from_broker` returns: the host scalar carrying the broker value.
///
/// Signed and unsigned integers no wider than 32 bits widen losslessly to
/// the host's 32-bit integer.  A 64-bit or unsigned 32-bit integer outside
/// the signed 32-bit range becomes a 64-bit float instead of being
/// truncated.  A character has no host representation and is refused.
pub open spec fn from_broker_model(v: PropertyModel) -> Option<DynamicModel> {
    match v {
        PropertyModel::Null => Some(DynamicModel::Empty),
        PropertyModel::Boolean(b) => Some(DynamicModel::Bool(b)),
        PropertyModel::Ubyte(x) => Some(DynamicModel::Int(x as i32)),
        PropertyModel::Ushort(x) => Some(DynamicModel::Int(x as i32)),
        PropertyModel::Uint(x) => if x > i32::MAX as u32 {
            Some(DynamicModel::Double(DoubleValue::OfUnsigned(x as u64)))
        } else {
            Some(DynamicModel::Int(x as i32))
        },
        PropertyModel::Ulong(x) => if x > i32::MAX as u64 {
            Some(DynamicModel::Double(DoubleValue::OfUnsigned(x)))
        } else {
            Some(DynamicModel::Int(x as i32))
        },
        PropertyModel::Byte(x) => Some(DynamicModel::Int(x as i32)),
        PropertyModel::Short(x) => Some(DynamicModel::Int(x as i32)),
        PropertyModel::Int(x) => Some(DynamicModel::Int(x)),
        PropertyModel::Long(x) => if x > i32::MAX as i64 || x < i32::MIN as i64 {
            Some(DynamicModel::Double(DoubleValue::OfSigned(x)))
        } else {
            Some(DynamicModel::Int(x as i32))
        },
        PropertyModel::Float(bits) => Some(
            DynamicModel::Double(DoubleValue::OfFloatBits(bits)),
        ),
        PropertyModel::Double(bits) => Some(DynamicModel::Double(DoubleValue::Bits(bits))),
        PropertyModel::Char(_) => None,
        PropertyModel::Timestamp(t) => Some(DynamicModel::Date(t)),
        PropertyModel::Uuid(b) => Some(DynamicModel::Str(uuid_text(b))),
        PropertyModel::Binary(b) => Some(DynamicModel::Blob(b)),
        PropertyModel::Str(s) => Some(DynamicModel::Str(s)),
        PropertyModel::Symbol(s) => Some(DynamicModel::Str(s)),
    }
}

/// Marshals one host scalar into the broker property that carries it.
pub fn to_broker(v: DynamicValue) -> (r: Result<PropertyValue, SessionError>)
    ensures
        match r {
            Ok(p) => to_broker_model(v@) == Some(p@),
            Err(e) => to_broker_model(v@) is None && e is CodecError,
        },
{
    match v {
        DynamicValue::Empty => Ok(PropertyValue::Null),
        DynamicValue::Bool(b) => Ok(PropertyValue::Boolean(b)),
        DynamicValue::Int(x) => Ok(PropertyValue::Int(x)),
        DynamicValue::Double(DoubleValue::Bits(b)) => Ok(PropertyValue::Double(b)),
        DynamicValue::Double(_) => Err(SessionError::CodecError),
        DynamicValue::Date(t) => Ok(PropertyValue::Timestamp(t)),
        DynamicValue::Str(s) => Ok(PropertyValue::Str(s)),
        DynamicValue::Blob(b) => Ok(PropertyValue::Binary(b)),
    }
}

/// Marshals one broker property into the host scalar that carries it.
pub fn from_broker(v: PropertyValue) -> (r: Result<DynamicValue, SessionError>)
    ensures
        match r {
            Ok(d) => from_broker_model(v@) == Some(d@),
            Err(e) => from_broker_model(v@) is None && e is CodecError,
        },
{
    match v {
        PropertyValue::Null => Ok(DynamicValue::Empty),
        PropertyValue::Boolean(b) => Ok(DynamicValue::Bool(b)),
        PropertyValue::Ubyte(x) => Ok(DynamicValue::Int(x as i32)),
        PropertyValue::Ushort(x) => Ok(DynamicValue::Int(x as i32)),
        PropertyValue::Uint(x) => if x > i32::MAX as u32 {
            Ok(DynamicValue::Double(DoubleValue::OfUnsigned(x as u64)))
        } else {
            Ok(DynamicValue::Int(x as i32))
        },
        PropertyValue::Ulong(x) => if x > i32::MAX as u64 {
            Ok(DynamicValue::Double(DoubleValue::OfUnsigned(x)))
        } else {
            Ok(DynamicValue::Int(x as i32))
        },
        PropertyValue::Byte(x) => Ok(DynamicValue::Int(x as i32)),
        PropertyValue::Short(x) => Ok(DynamicValue::Int(x as i32)),
        PropertyValue::Int(x) => Ok(DynamicValue::Int(x)),
        PropertyValue::Long(x) => if x > i32::MAX as i64 || x < i32::MIN as i64 {
            Ok(DynamicValue::Double(DoubleValue::OfSigned(x)))
        } else {
            Ok(DynamicValue::Int(x as i32))
        },
        PropertyValue::Float(bits) => Ok(DynamicValue::Double(DoubleValue::OfFloatBits(bits))),
        PropertyValue::Double(bits) => Ok(DynamicValue::Double(DoubleValue::Bits(bits))),
        PropertyValue::Char(_) => Err(SessionError::CodecError),
        PropertyValue::Timestamp(t) => Ok(DynamicValue::Date(t)),
        PropertyValue::Uuid(b) => Ok(DynamicValue::Str(render_uuid(&b))),
        PropertyValue::Binary(b) => Ok(DynamicValue::Blob(b)),
        PropertyValue::Str(s) => Ok(DynamicValue::Str(s)),
        PropertyValue::Symbol(s) => Ok(DynamicValue::Str(s)),
    }
}

/// Every host value that the shell can hand in, except a float (whose bit
/// pattern is not observable from its widened forms), comes back unchanged
/// after a trip through the broker's property model.
pub proof fn lemma_codec_round_trip(v: DynamicModel)
    requires
        v.host_producible(),
    ensures
        to_broker_model(v) is Some,
        from_broker_model(to_broker_model(v)->Some_0) == Some(v),
{
}

/// The lowercase hexadecimal digit of a value below sixteen.
pub open spec fn hex_digit(n: nat) -> char {
    if n == 0 { '0' }
    else if n == 1 { '1' }
    else if n == 2 { '2' }
    else if n == 3 { '3' }
    else if n == 4 { '4' }
    else if n == 5 { '5' }
    else if n == 6 { '6' }
    else if n == 7 { '7' }
    else if n == 8 { '8' }
    else if n == 9 { '9' }
    else if n == 10 { 'a' }
    else if n == 11 { 'b' }
    else if n == 12 { 'c' }
    else if n == 13 { 'd' }
    else if n == 14 { 'e' }
    else { 'f' }
}

/// One byte as two lowercase hexadecimal digits.
pub open spec fn byte_hex(b: u8) -> Seq<char> {
    seq![hex_digit((b / 16) as nat), hex_digit((b % 16) as nat)]
}

/// A byte sequence as lowercase hexadecimal text.
pub open spec fn bytes_hex(s: Seq<u8>) -> Seq<char>
    decreases s.len(),
{
    if s.len() == 0 {
        Seq::empty()
    } else {
        bytes_hex(s.drop_last()) + byte_hex(s.last())
    }
}

/// The canonical text form of a sixteen-byte unique identifier:
/// five lowercase hexadecimal groups of 8, 4, 4, 4 and 12 digits,
/// separated by hyphens.
pub open spec fn uuid_text(b: Seq<u8>) -> Seq<char> {
    bytes_hex(b.subrange(0, 4)) + seq!['-'] + bytes_hex(b.subrange(4, 6)) + seq!['-']
        + bytes_hex(b.subrange(6, 8)) + seq!['-'] + bytes_hex(b.subrange(8, 10)) + seq!['-']
        + bytes_hex(b.subrange(10, 16))
}

/// Appends the lowercase hexadecimal digit of `n` to `buf`.
fn append_hex_digit(buf: &mut String, n: u8)
    requires
        n < 16,
    ensures
        final(buf)@ == old(buf)@ + seq![hex_digit(n as nat)],
{
    if n == 0 {
        buf.append("0");
        proof { reveal_strlit("0"); assert(buf@ =~= old(buf)@ + seq![hex_digit(n as nat)]); }
    } else if n == 1 {
        buf.append("1");
        proof { reveal_strlit("1"); assert(buf@ =~= old(buf)@ + seq![hex_digit(n as nat)]); }
    } else if n == 2 {
        buf.append("2");
        proof { reveal_strlit("2"); assert(buf@ =~= old(buf)@ + seq![hex_digit(n as nat)]); }
    } else if n == 3 {
        buf.append("3");
        proof { reveal_strlit("3"); assert(buf@ =~= old(buf)@ + seq![hex_digit(n as nat)]); }
    } else if n == 4 {
        buf.append("4");
        proof { reveal_strlit("4"); assert(buf@ =~= old(buf)@ + seq![hex_digit(n as nat)]); }
    } else if n == 5 {
        buf.append("5");
        proof { reveal_strlit("5"); assert(buf@ =~= old(buf)@ + seq![hex_digit(n as nat)]); }
    } else if n == 6 {
        buf.append("6");
        proof { reveal_strlit("6"); assert(buf@ =~= old(buf)@ + seq![hex_digit(n as nat)]); }
    } else if n == 7 {
        buf.append("7");
        proof { reveal_strlit("7"); assert(buf@ =~= old(buf)@ + seq![hex_digit(n as nat)]); }
    } else if n == 8 {
        buf.append("8");
        proof { reveal_strlit("8"); assert(buf@ =~= old(buf)@ + seq![hex_digit(n as nat)]); }
    } else if n == 9 {
        buf.append("9");
        proof { reveal_strlit("9"); assert(buf@ =~= old(buf)@ + seq![hex_digit(n as nat)]); }
    } else if n == 10 {
        buf.append("a");
        proof { reveal_strlit("a"); assert(buf@ =~= old(buf)@ + seq![hex_digit(n as nat)]); }
    } else if n == 11 {
        buf.append("b");
        proof { reveal_strlit("b"); assert(buf@ =~= old(buf)@ + seq![hex_digit(n as nat)]); }
    } else if n == 12 {
        buf.append("c");
        proof { reveal_strlit("c"); assert(buf@ =~= old(buf)@ + seq![hex_digit(n as nat)]); }
    } else if n == 13 {
        buf.append("d");
        proof { reveal_strlit("d"); assert(buf@ =~= old(buf)@ + seq![hex_digit(n as nat)]); }
    } else if n == 14 {
        buf.append("e");
        proof { reveal_strlit("e"); assert(buf@ =~= old(buf)@ + seq![hex_digit(n as nat)]); }
    } else {
        buf.append("f");
        proof { reveal_strlit("f"); assert(buf@ =~= old(buf)@ + seq![hex_digit(n as nat)]); }
    }
}

/// Appends the bytes `b[lo..hi]` to `buf` as hexadecimal text.
fn append_bytes_hex(buf: &mut String, b: &[u8; 16], lo: usize, hi: usize)
    requires
        lo <= hi <= 16,
    ensures
        final(buf)@ == old(buf)@ + bytes_hex(b@.subrange(lo as int, hi as int)),
{
    let mut i: usize = lo;
    while i < hi
        invariant
            lo <= i <= hi <= 16,
            buf@ == old(buf)@ + bytes_hex(b@.subrange(lo as int, i as int)),
        decreases hi - i,
    {
        let x = b[i];
        append_hex_digit(buf, x / 16);
        append_hex_digit(buf, x % 16);
        proof {
            let pre = b@.subrange(lo as int, i as int);
            let post = b@.subrange(lo as int, i + 1 as int);
            assert(post.drop_last() =~= pre);
            assert(post.last() == b@[i as int]);
            assert(bytes_hex(post) == bytes_hex(pre) + byte_hex(b@[i as int]));
            assert(buf@ =~= old(buf)@ + bytes_hex(post));
        }
        i = i + 1;
    }
    proof {
        assert(b@.subrange(lo as int, hi as int) == b@.subrange(lo as int, hi as int));
    }
}

/// Appends one hyphen to `buf`.
fn append_hyphen(buf: &mut String)
    ensures
        final(buf)@ == old(buf)@ + seq!['-'],
{
    buf.append("-");
    proof { reveal_strlit("-"); assert(buf@ =~= old(buf)@ + seq!['-']); }
}

/// Renders a sixteen-byte unique identifier in its canonical text form.
pub fn render_uuid(b: &[u8; 16]) -> (r: String)
    ensures
        r@ == uuid_text(b@),
{
    let mut buf = String::new();
    append_bytes_hex(&mut buf, b, 0, 4);
    append_hyphen(&mut buf);
    append_bytes_hex(&mut buf, b, 4, 6);
    append_hyphen(&mut buf);
    append_bytes_hex(&mut buf, b, 6, 8);
    append_hyphen(&mut buf);
    append_bytes_hex(&mut buf, b, 8, 10);
    append_hyphen(&mut buf);
    append_bytes_hex(&mut buf, b, 10, 16);
    buf
}

} // verus!
