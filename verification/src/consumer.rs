//! The consumer session: the deferred consumer builder, the
//! offset-resolution rule that guarantees resumption without redelivery,
//! the timed-receive outcome handling, and the reads over the current
//! delivery.

use vstd::prelude::*;

use crate::codec::{
    from_broker, from_broker_model, DynamicValue, PropertyModel, PropertyValue,
};
use crate::environments::{contains_environment, HandleRegistry};
use crate::error::SessionError;
use crate::text::str_eq;

verus! {

/// The outcome of asking the broker for a consumer's last stored offset.
#[derive(Clone, Debug)]
pub enum OffsetQuery {
    /// A checkpoint exists; its offset is the last one processed.
    Found(u64),
    /// No checkpoint was ever stored for this consumer name and stream.
    NotFound,
    /// The query failed for any other reason; fatal for the build.
    Failed(String),
}

/// The offset at which a consumer must resume so that nothing already
/// processed is redelivered: one past the stored checkpoint, or the first
/// offset of the stream when no checkpoint exists.  Any query failure
/// other than a missing checkpoint aborts the build.
pub fn resolve_resume_offset(query: OffsetQuery) -> (r: Result<u64, SessionError>)
    requires
        query matches OffsetQuery::Found(o) ==> o < u64::MAX,
    ensures
        query matches OffsetQuery::Found(o) ==> r == Ok::<u64, SessionError>(
            (o + 1) as u64,
        ),
        query is NotFound ==> r == Ok::<u64, SessionError>(0u64),
        query matches OffsetQuery::Failed(m) ==> r == Err::<u64, SessionError>(
            SessionError::Broker(m),
        ),
{
    match query {
        OffsetQuery::Found(o) => Ok(o + 1),
        OffsetQuery::NotFound => Ok(0),
        OffsetQuery::Failed(m) => Err(SessionError::Broker(m)),
    }
}

/// One received message: its offset, its body, and its application
/// properties when the message carries any.
#[derive(Clone, Debug)]
pub struct Delivery {
    pub offset: u64,
    pub body: Vec<u8>,
    pub properties: Option<Vec<(String, PropertyValue)>>,
}

/// The mathematical model of a delivery.
pub struct DeliveryModel {
    pub offset: u64,
    pub body: Seq<u8>,
    pub properties: Option<Seq<(Seq<char>, PropertyModel)>>,
}

impl View for Delivery {
    type V = DeliveryModel;

    open spec fn view(&self) -> DeliveryModel {
        DeliveryModel {
            offset: self.offset,
            body: self.body@,
            properties: match &self.properties {
                Option::Some(props) => Option::Some(
                    props@.map_values(|e: (String, PropertyValue)| (e.0@, e.1@)),
                ),
                Option::None => Option::None,
            },
        }
    }
}

/// What one timed wait for the next delivery ended with.
#[derive(Clone, Debug)]
pub enum RecvOutcome {
    /// A delivery arrived in time.
    Arrived(Delivery),
    /// The timeout elapsed with no delivery; not an error.
    TimedOut,
    /// The broker closed the delivery stream; fatal for this consumer.
    Closed,
    /// The delivery stream reported any other failure.
    Failed(String),
}

/// The consumer settings accumulated before `build`.
#[derive(Clone, Debug)]
pub struct ConsumerConfig {
    /// The consumer name, which names the checkpoint to resume from.
    pub name: Option<String>,
}

/// The value at the first occurrence of key `k`, if any.
pub open spec fn property_lookup(
    props: Seq<(Seq<char>, PropertyModel)>,
    k: Seq<char>,
) -> Option<PropertyModel>
    decreases props.len(),
{
    if props.len() == 0 {
        Option::None
    } else if props.first().0 == k {
        Option::Some(props.first().1)
    } else {
        property_lookup(props.drop_first(), k)
    }
}

/// The little-endian encoding of an offset, byte `i` carrying
/// `(o / 256^i) % 256`.
pub open spec fn offset_le_bytes(o: u64) -> Seq<u8> {
    seq![
        (o % 256) as u8,
        ((o / 256) % 256) as u8,
        ((o / 65536) % 256) as u8,
        ((o / 16777216) % 256) as u8,
        ((o / 4294967296) % 256) as u8,
        ((o / 1099511627776) % 256) as u8,
        ((o / 281474976710656) % 256) as u8,
        ((o / 72057594037927936) % 256) as u8,
    ]
}

/// The offset a little-endian byte sequence of length 8 denotes.
pub open spec fn offset_of_le_bytes(s: Seq<u8>) -> int {
    s[0] + 256 * s[1] + 65536 * s[2] + 16777216 * s[3] + 4294967296 * s[4] + 1099511627776 * s[5]
        + 281474976710656 * s[6] + 72057594037927936 * s[7]
}

/// Decoding the little-endian encoding of an offset gives the offset
/// back: what `offset` hands the host, `prepare_store_offset` reads as
/// the same checkpoint.
pub proof fn lemma_offset_bytes_round_trip(o: u64)
    ensures
        offset_of_le_bytes(offset_le_bytes(o)) == o,
{
    let b = offset_le_bytes(o);
    assert(b[0] + 256 * b[1] + 65536 * b[2] + 16777216 * b[3] + 4294967296 * b[4]
        + 1099511627776 * b[5] + 281474976710656 * b[6] + 72057594037927936 * b[7] == o) by {
        assert((o % 256) + 256 * ((o / 256) % 256) + 65536 * ((o / 65536) % 256) + 16777216 * ((o
            / 16777216) % 256) + 4294967296 * ((o / 4294967296) % 256) + 1099511627776 * ((o
            / 1099511627776) % 256) + 281474976710656 * ((o / 281474976710656) % 256)
            + 72057594037927936 * ((o / 72057594037927936) % 256) == o) by (bit_vector);
    }
}

/// The consumer session's verified state: the deferred configuration,
/// whether the broker-side consumer is open, and the single slot holding
/// the most recent delivery.
pub struct ConsumerSession {
    config: Option<ConsumerConfig>,
    built: bool,
    delivery: Option<Delivery>,
}

impl ConsumerSession {
    /// The configuration accumulator, until `begin_build` consumes it.
    pub closed spec fn config_spec(self) -> Option<ConsumerConfig> {
        self.config
    }

    /// Whether the broker-side consumer is open.
    pub closed spec fn is_built(self) -> bool {
        self.built
    }

    /// The current delivery, absent until the first receive.
    pub closed spec fn delivery_spec(self) -> Option<Delivery> {
        self.delivery
    }

    /// A fresh session: unnamed, not built, no delivery.
    pub fn new() -> (r: Self)
        ensures
            r.config_spec() matches Some(c) && c.name is None,
            !r.is_built(),
            r.delivery_spec() is None,
    {
        ConsumerSession { config: Some(ConsumerConfig { name: None }), built: false, delivery: None }
    }

    /// Names the consumer, which names the checkpoint the build resumes
    /// from.  Fails once the configuration has been consumed.
    pub fn set_name(&mut self, name: String) -> (r: Result<(), SessionError>)
        ensures
            old(self).config_spec() is Some ==> ({
                &&& r is Ok
                &&& final(self).config_spec() == Some((ConsumerConfig { name: Some(name) }))
                &&& final(self).is_built() == old(self).is_built()
                &&& final(self).delivery_spec() == old(self).delivery_spec()
            }),
            old(self).config_spec() is None ==> (r matches Err(e) && e is SpentBuilder
                && *final(self) == *old(self)),
    {
        match &mut self.config {
            Some(c) => {
                c.name = Some(name);
                Ok(())
            },
            None => Err(SessionError::SpentBuilder),
        }
    }

    /// Resolves the connection handle against the registry and consumes
    /// the configuration, yielding the settings both broker-side
    /// consumers (the throwaway offset probe and the real subscription)
    /// are opened with.  Fails with `NoConsumer` when the handle names no
    /// registered connection (leaving the configuration for a later
    /// attempt) and with `AlreadyBuilt` when the configuration was
    /// consumed before.
    pub fn begin_build<T>(&mut self, reg: &HandleRegistry<T>, handle: i32) -> (r: Result<
        ConsumerConfig,
        SessionError,
    >)
        ensures
            !reg.has(handle) ==> (r matches Err(e) && e is NoConsumer && *final(self) == *old(
                self,
            )),
            reg.has(handle) && old(self).config_spec() is None ==> (r matches Err(e)
                && e is AlreadyBuilt && *final(self) == *old(self)),
            (reg.has(handle) && old(self).config_spec() is Some) ==> ({
                &&& old(self).config_spec() matches Some(c)
                &&& r matches Ok(plan)
                &&& plan == c
                &&& final(self).config_spec() is None
                &&& final(self).is_built() == old(self).is_built()
                &&& final(self).delivery_spec() == old(self).delivery_spec()
            }),
    {
        if !contains_environment(reg, handle) {
            return Err(SessionError::NoConsumer);
        }
        let mut taken: Option<ConsumerConfig> = None;
        core::mem::swap(&mut taken, &mut self.config);
        match taken {
            Some(c) => Ok(c),
            None => Err(SessionError::AlreadyBuilt),
        }
    }

    /// Records that the second broker-side consumer opened at the resolved
    /// resume offset: the session is built from here on.
    pub fn complete_build(&mut self)
        ensures
            final(self).is_built(),
            final(self).config_spec() == old(self).config_spec(),
            final(self).delivery_spec() == old(self).delivery_spec(),
    {
        self.built = true;
    }

    /// Applies what a timed wait for the next delivery ended with: an
    /// arrived delivery fills the single delivery slot and yields `true`;
    /// an elapsed timeout yields `false` and is no error; a closed stream
    /// fails with `StreamClosed`; any other failure passes through
    /// opaquely.  The slot keeps its previous delivery in every case but
    /// an arrival.  Fails with `NoConsumer` before a successful build.
    pub fn record_recv_outcome(&mut self, outcome: RecvOutcome) -> (r: Result<bool, SessionError>)
        ensures
            final(self).config_spec() == old(self).config_spec(),
            final(self).is_built() == old(self).is_built(),
            !old(self).is_built() ==> (r matches Err(e) && e is NoConsumer && *final(self) == *old(
                self,
            )),
            old(self).is_built() ==> ({
                &&& outcome matches RecvOutcome::Arrived(d) ==> (r == Ok::<bool, SessionError>(true)
                    && final(self).delivery_spec() == Some(d))
                &&& outcome is TimedOut ==> (r == Ok::<bool, SessionError>(false)
                    && final(self).delivery_spec() == old(self).delivery_spec())
                &&& outcome is Closed ==> (r matches Err(e) && e is StreamClosed
                    && final(self).delivery_spec() == old(self).delivery_spec())
                &&& outcome matches RecvOutcome::Failed(m) ==> ({
                    &&& r matches Err(e)
                    &&& e == SessionError::Broker(m)
                    &&& final(self).delivery_spec() == old(self).delivery_spec()
                })
            }),
    {
        if !self.built {
            return Err(SessionError::NoConsumer);
        }
        match outcome {
            RecvOutcome::Arrived(d) => {
                self.delivery = Some(d);
                Ok(true)
            },
            RecvOutcome::TimedOut => Ok(false),
            RecvOutcome::Closed => Err(SessionError::StreamClosed),
            RecvOutcome::Failed(m) => Err(SessionError::Broker(m)),
        }
    }

    /// The current delivery's body.  Fails with `NoMessage` until a
    /// delivery has been received.
    pub fn message_body(&self) -> (r: Result<Vec<u8>, SessionError>)
        ensures
            self.delivery_spec() matches Some(d) ==> (r matches Ok(b) && b@ == d@.body),
            self.delivery_spec() is None ==> (r matches Err(e) && e is NoMessage),
    {
        match &self.delivery {
            Some(d) => {
                let b = d.body.clone();
                proof {
                    assert(b@ =~= d.body@);
                }
                Ok(b)
            },
            None => Err(SessionError::NoMessage),
        }
    }

    /// The value of the named application property of the current
    /// delivery, marshaled for the host; absent (not an error) when the
    /// delivery carries no properties or no such key.  Fails with
    /// `NoMessage` until a delivery has been received and with
    /// `CodecError` on a property value the host cannot hold.
    pub fn application_property(&self, name: &str) -> (r: Result<
        Option<DynamicValue>,
        SessionError,
    >)
        ensures
            self.delivery_spec() is None ==> (r matches Err(e) && e is NoMessage),
            self.delivery_spec() matches Some(d) ==> ({
                &&& d@.properties is None ==> (r matches Ok(v) && v is None)
                &&& d@.properties matches Some(props) ==> ({
                    &&& property_lookup(props, name@) is None ==> (r matches Ok(v) && v is None)
                    &&& property_lookup(props, name@) matches Some(pm) ==> ({
                        &&& from_broker_model(pm) matches Some(dm) ==> ({
                            &&& r matches Ok(v)
                            &&& v matches Some(dv)
                            &&& dv@ == dm
                        })
                        &&& from_broker_model(pm) is None ==> (r matches Err(e)
                            && e is CodecError)
                    })
                })
            }),
    {
        let d = match &self.delivery {
            Some(d) => d,
            None => {
                return Err(SessionError::NoMessage);
            },
        };
        let props = match &d.properties {
            Some(props) => props,
            None => {
                return Ok(None);
            },
        };
        let ghost pm = d@.properties->Some_0;
        let n = props.len();
        let mut i: usize = 0;
        proof {
            assert(pm.skip(0) =~= pm);
        }
        while i < n
            invariant
                self.delivery_spec() is Some,
                self.delivery_spec()->Some_0@.properties == Some(pm),
                n == props@.len(),
                pm == props@.map_values(|e: (String, PropertyValue)| (e.0@, e.1@)),
                0 <= i <= n,
                property_lookup(pm.skip(i as int), name@) == property_lookup(pm, name@),
                forall|j: int| 0 <= j < i ==> (#[trigger] props@[j]).0@ != name@,
            decreases n - i,
        {
            if str_eq(props[i].0.as_str(), name) {
                proof {
                    let rest = pm.skip(i as int);
                    assert(rest.first() == pm[i as int]);
                    assert(pm[i as int].0 == name@);
                    assert(property_lookup(pm, name@) == Some(pm[i as int].1));
                }
                let v = clone_property(&props[i].1);
                return match from_broker(v) {
                    Ok(dv) => Ok(Some(dv)),
                    Err(e) => Err(e),
                };
            }
            proof {
                let rest = pm.skip(i as int);
                assert(rest.first() == pm[i as int]);
                assert(pm[i as int].0 != name@);
                assert(rest.drop_first() =~= pm.skip(i + 1));
            }
            i = i + 1;
        }
        proof {
            assert(pm.skip(n as int).len() == 0);
            assert(property_lookup(pm, name@) is None);
        }
        Ok(None)
    }

    /// The current delivery's offset, encoded as 8 little-endian bytes
    /// for the host's binary kind.  Fails with `NoMessage` until a
    /// delivery has been received.
    pub fn offset(&self) -> (r: Result<Vec<u8>, SessionError>)
        ensures
            self.delivery_spec() matches Some(d) ==> (r matches Ok(b) && b@ == offset_le_bytes(
                d.offset,
            )),
            self.delivery_spec() is None ==> (r matches Err(e) && e is NoMessage),
    {
        let d = match &self.delivery {
            Some(d) => d,
            None => {
                return Err(SessionError::NoMessage);
            },
        };
        let o = d.offset;
        let mut b: Vec<u8> = Vec::new();
        b.push((o % 256) as u8);
        b.push(((o / 256) % 256) as u8);
        b.push(((o / 65536) % 256) as u8);
        b.push(((o / 16777216) % 256) as u8);
        b.push(((o / 4294967296) % 256) as u8);
        b.push(((o / 1099511627776) % 256) as u8);
        b.push(((o / 281474976710656) % 256) as u8);
        b.push(((o / 72057594037927936) % 256) as u8);
        proof {
            assert(b@ =~= offset_le_bytes(o));
        }
        Ok(b)
    }

    /// Decodes the checkpoint the host asks to store: the offset the
    /// 8-byte little-endian blob denotes.  Fails with `NoConsumer` before
    /// a successful build and with `CodecError` on a blob that is not
    /// exactly 8 bytes.
    pub fn prepare_store_offset(&self, blob: &Vec<u8>) -> (r: Result<u64, SessionError>)
        ensures
            !self.is_built() ==> (r matches Err(e) && e is NoConsumer),
            (self.is_built() && blob@.len() != 8) ==> (r matches Err(e) && e is CodecError),
            (self.is_built() && blob@.len() == 8) ==> (r matches Ok(o) && o
                == offset_of_le_bytes(blob@)),
    {
        if !self.built {
            return Err(SessionError::NoConsumer);
        }
        if blob.len() != 8 {
            return Err(SessionError::CodecError);
        }
        let b0 = blob[0] as u64;
        let b1 = blob[1] as u64;
        let b2 = blob[2] as u64;
        let b3 = blob[3] as u64;
        let b4 = blob[4] as u64;
        let b5 = blob[5] as u64;
        let b6 = blob[6] as u64;
        let b7 = blob[7] as u64;
        let o = b0 + 256 * b1 + 65536 * b2 + 16777216 * b3 + 4294967296 * b4 + 1099511627776 * b5
            + 281474976710656 * b6 + 72057594037927936 * b7;
        Ok(o)
    }
}

/// Copies one property value, character for character and byte for byte.
fn clone_property(p: &PropertyValue) -> (r: PropertyValue)
    ensures
        r@ == p@,
{
    match p {
        PropertyValue::Null => PropertyValue::Null,
        PropertyValue::Boolean(b) => PropertyValue::Boolean(*b),
        PropertyValue::Ubyte(x) => PropertyValue::Ubyte(*x),
        PropertyValue::Ushort(x) => PropertyValue::Ushort(*x),
        PropertyValue::Uint(x) => PropertyValue::Uint(*x),
        PropertyValue::Ulong(x) => PropertyValue::Ulong(*x),
        PropertyValue::Byte(x) => PropertyValue::Byte(*x),
        PropertyValue::Short(x) => PropertyValue::Short(*x),
        PropertyValue::Int(x) => PropertyValue::Int(*x),
        PropertyValue::Long(x) => PropertyValue::Long(*x),
        PropertyValue::Float(x) => PropertyValue::Float(*x),
        PropertyValue::Double(x) => PropertyValue::Double(*x),
        PropertyValue::Char(c) => PropertyValue::Char(*c),
        PropertyValue::Timestamp(t) => PropertyValue::Timestamp(*t),
        PropertyValue::Uuid(b) => PropertyValue::Uuid(*b),
        PropertyValue::Binary(v) => {
            let c = v.clone();
            proof {
                assert(c@ =~= v@);
            }
            PropertyValue::Binary(c)
        },
        PropertyValue::Str(s) => PropertyValue::Str(String::from_str(s.as_str())),
        PropertyValue::Symbol(s) => PropertyValue::Symbol(String::from_str(s.as_str())),
    }
}

} // verus!
