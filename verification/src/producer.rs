//! The producer session: a deferred producer builder, the pending-message
//! queue with its per-message property accumulator, and the
//! batch-confirmation protocol that restores submission order from
//! possibly-reordered broker confirmations.

use vstd::prelude::*;

use crate::codec::{
    to_broker, to_broker_model, DynamicValue, PropertyModel, PropertyValue,
};
use crate::environments::{contains_environment, HandleRegistry};
use crate::error::SessionError;
use crate::text::str_eq;

verus! {

broadcast use vstd::seq_lib::group_to_multiset_ensures;

/// The broker's per-request status code.
#[derive(Clone, Copy, Debug, PartialEq, Eq, Structural)]
pub enum ResponseCode {
    Okay,
    StreamDoesNotExist,
    SubscriptionIdAlreadyExists,
    SubscriptionIdDoesNotExist,
    StreamAlreadyExists,
    StreamNotAvailable,
    SaslMechanismNotSupported,
    AuthenticationFailure,
    SaslError,
    SaslChallange,
    AuthenticationFailureLoopback,
    VirtualHostAccessFailure,
    UnknownFrame,
    FrameTooLarge,
    InternalError,
    AccessRefused,
    PreconditionFailed,
    PublisherDoesNotExist,
    OffsetNotFound,
}

/// One broker confirmation: the publishing id the broker assigned to the
/// message (monotonically increasing in submission order) and the status
/// it reports for it.
#[derive(Clone, Copy, Debug, PartialEq, Eq, Structural)]
pub struct Confirmation {
    pub publishing_id: u64,
    pub status: ResponseCode,
}

/// One message as queued for sending: its body and its application
/// properties, in the order they were staged.
#[derive(Clone, Debug)]
pub struct Message {
    pub body: Vec<u8>,
    pub properties: Vec<(String, PropertyValue)>,
}

/// The mathematical model of a queued message.
pub struct MessageModel {
    pub body: Seq<u8>,
    pub properties: Seq<(Seq<char>, PropertyModel)>,
}

impl View for Message {
    type V = MessageModel;

    open spec fn view(&self) -> MessageModel {
        MessageModel {
            body: self.body@,
            properties: self.properties@.map_values(|e: (String, PropertyValue)| (e.0@, e.1@)),
        }
    }
}

/// The producer settings accumulated before `build`.
#[derive(Clone, Debug)]
pub struct ProducerConfig {
    /// The producer name; setting one selects broker-side deduplication.
    pub name: Option<String>,
    /// How long the broker client may buffer a batch, in milliseconds.
    pub batch_delay_ms: Option<u64>,
    /// How many messages the broker client may buffer.
    pub batch_size: Option<usize>,
}

/// The two kinds of producer a build can yield, fixed for the session's
/// lifetime: deduplicating (named) or not (unnamed).
#[derive(Clone, Copy, Debug, PartialEq, Eq, Structural)]
pub enum ProducerVariant {
    Deduplicating,
    NonDeduplicating,
}

/// Whether `s` is ordered by publishing id.
pub open spec fn sorted_by_id(s: Seq<Confirmation>) -> bool {
    forall|i: int, j: int|
        0 <= i < j < s.len() ==> (#[trigger] s[i]).publishing_id <= (#[trigger] s[j]).publishing_id
}

/// Orders confirmations by the publishing id the broker assigned.
pub fn sort_confirmations(input: Vec<Confirmation>) -> (out: Vec<Confirmation>)
    ensures
        sorted_by_id(out@),
        out@.to_multiset() == input@.to_multiset(),
        out@.len() == input@.len(),
{
    let ghost orig: Seq<Confirmation> = input@;
    let mut work = input;
    let mut out: Vec<Confirmation> = Vec::new();
    proof {
        assert(out@.to_multiset().add(work@.to_multiset()) =~= orig.to_multiset());
    }
    while work.len() > 0
        invariant
            out@.to_multiset().add(work@.to_multiset()) == orig.to_multiset(),
            out@.len() + work@.len() == orig.len(),
            sorted_by_id(out@),
            forall|i: int, j: int|
                0 <= i < out@.len() && 0 <= j < work@.len() ==> (#[trigger] out@[i]).publishing_id
                    <= (#[trigger] work@[j]).publishing_id,
        decreases work.len(),
    {
        let mut mi: usize = 0;
        let mut k: usize = 1;
        while k < work.len()
            invariant
                0 <= mi < k <= work.len(),
                forall|j: int|
                    0 <= j < k ==> work@[mi as int].publishing_id <= (
                    #[trigger] work@[j]).publishing_id,
            decreases work.len() - k,
        {
            if work[k].publishing_id < work[mi].publishing_id {
                mi = k;
            }
            k = k + 1;
        }
        let ghost pre_work = work@;
        let ghost pre_out = out@;
        let c = work.remove(mi);
        out.push(c);
        proof {
            assert(work@.to_multiset() =~= pre_work.to_multiset().remove(c));
            assert(out@.to_multiset() =~= pre_out.to_multiset().insert(c));
            assert(out@.to_multiset().add(work@.to_multiset()) =~= orig.to_multiset());
            assert forall|i: int, j: int|
                0 <= i < j < out@.len() implies (#[trigger] out@[i]).publishing_id <= (
            #[trigger] out@[j]).publishing_id by {
                if j == out@.len() - 1 {
                    assert(out@[i] == pre_out[i]);
                }
            }
            assert forall|i: int, j: int|
                0 <= i < out@.len() && 0 <= j < work@.len() implies (
            #[trigger] out@[i]).publishing_id <= (#[trigger] work@[j]).publishing_id by {
                if j < mi {
                    assert(work@[j] == pre_work[j]);
                } else {
                    assert(work@[j] == pre_work[j + 1]);
                }
                if i < out@.len() - 1 {
                    assert(out@[i] == pre_out[i]);
                }
            }
        }
    }
    out
}

/// When the broker assigns publishing ids 0, 1, ... in submission order,
/// reordering the confirmations by publishing id restores exactly the
/// submission order: the batch result at index `i` speaks of the `i`-th
/// message handed to `add_message`, however the confirmations arrived.
pub proof fn lemma_batch_alignment(submitted: Seq<Confirmation>, sc: Seq<Confirmation>)
    requires
        forall|i: int|
            0 <= i < submitted.len() ==> (#[trigger] submitted[i]).publishing_id as int == i,
        sc.to_multiset() == submitted.to_multiset(),
        sorted_by_id(sc),
    ensures
        sc =~= submitted,
        sc.map_values(|c: Confirmation| c.status) == submitted.map_values(
            |c: Confirmation| c.status,
        ),
{
    let n = submitted.len() as int;
    assert(sc.len() == n) by {
        assert(sc.to_multiset().len() == sc.len());
        assert(submitted.to_multiset().len() == submitted.len());
    }
    assert(submitted.no_duplicates()) by {
        assert forall|i: int, j: int|
            0 <= i < submitted.len() && 0 <= j < submitted.len() && i != j implies submitted[i]
            != submitted[j] by {
            assert(submitted[i].publishing_id as int == i);
            assert(submitted[j].publishing_id as int == j);
        }
    }
    submitted.lemma_multiset_has_no_duplicates();
    sc.lemma_multiset_has_no_duplicates_conv();
    assert forall|k: int| #![trigger sc[k]] 0 <= k < n implies exists|a: int|
        0 <= a < n && (#[trigger] submitted[a]) == sc[k] by {
        assert(sc.to_multiset().contains(sc[k])) by {
            assert(sc.contains(sc[k]));
        }
        assert(submitted.to_multiset().contains(sc[k]));
        assert(submitted.contains(sc[k]));
    }
    assert forall|k: int| 0 <= k < n implies 0 <= (#[trigger] sc[k]).publishing_id < n by {
        let a = choose|a: int| 0 <= a < n && (#[trigger] submitted[a]) == sc[k];
        assert(sc[k].publishing_id as int == a);
    }
    assert forall|i: int, j: int| 0 <= i < j < n implies (#[trigger] sc[i]).publishing_id < (
    #[trigger] sc[j]).publishing_id by {
        if sc[i].publishing_id == sc[j].publishing_id {
            let a = choose|a: int| 0 <= a < n && (#[trigger] submitted[a]) == sc[i];
            let b = choose|b: int| 0 <= b < n && (#[trigger] submitted[b]) == sc[j];
            assert(a == sc[i].publishing_id as int);
            assert(b == sc[j].publishing_id as int);
            assert(sc[i] == sc[j]);
        }
    }
    assert forall|i: int| 0 <= i < n implies (#[trigger] sc[i]).publishing_id as int >= i by {
        lemma_sorted_distinct_lower_bound(sc, i);
    }
    assert forall|i: int| 0 <= i < n implies (#[trigger] sc[i]).publishing_id as int <= i by {
        lemma_sorted_distinct_upper_bound(sc, i, n);
    }
    assert forall|i: int| 0 <= i < n implies #[trigger] sc[i] == submitted[i] by {
        let a = choose|a: int| 0 <= a < n && (#[trigger] submitted[a]) == sc[i];
        assert(a == sc[i].publishing_id as int);
        assert(a == i);
    }
    assert(sc == submitted);
}

/// In a strictly increasing id sequence the id at index `i` is at least `i`.
proof fn lemma_sorted_distinct_lower_bound(s: Seq<Confirmation>, i: int)
    requires
        forall|a: int, b: int|
            0 <= a < b < s.len() ==> (#[trigger] s[a]).publishing_id < (
            #[trigger] s[b]).publishing_id,
        0 <= i < s.len(),
    ensures
        s[i].publishing_id as int >= i,
    decreases i,
{
    if i > 0 {
        lemma_sorted_distinct_lower_bound(s, i - 1);
        assert(s[i - 1].publishing_id < s[i].publishing_id);
    }
}

/// In a strictly increasing id sequence of `n` ids below `n`, the id at
/// index `i` is at most `i`.
proof fn lemma_sorted_distinct_upper_bound(s: Seq<Confirmation>, i: int, n: int)
    requires
        forall|a: int, b: int|
            0 <= a < b < s.len() ==> (#[trigger] s[a]).publishing_id < (
            #[trigger] s[b]).publishing_id,
        forall|a: int| 0 <= a < s.len() ==> (#[trigger] s[a]).publishing_id < n,
        s.len() == n,
        0 <= i < n,
    ensures
        s[i].publishing_id as int <= i,
    decreases n - i,
{
    if i < n - 1 {
        lemma_sorted_distinct_upper_bound(s, i + 1, n);
        assert(s[i].publishing_id < s[i + 1].publishing_id);
    }
}

/// The diagnostic name of a status code, as the broker client renders it.
pub open spec fn code_name(c: ResponseCode) -> Seq<char> {
    match c {
        ResponseCode::Okay => "Ok"@,
        ResponseCode::StreamDoesNotExist => "StreamDoesNotExist"@,
        ResponseCode::SubscriptionIdAlreadyExists => "SubscriptionIdAlreadyExists"@,
        ResponseCode::SubscriptionIdDoesNotExist => "SubscriptionIdDoesNotExist"@,
        ResponseCode::StreamAlreadyExists => "StreamAlreadyExists"@,
        ResponseCode::StreamNotAvailable => "StreamNotAvailable"@,
        ResponseCode::SaslMechanismNotSupported => "SaslMechanismNotSupported"@,
        ResponseCode::AuthenticationFailure => "AuthenticationFailure"@,
        ResponseCode::SaslError => "SaslError"@,
        ResponseCode::SaslChallange => "SaslChallange"@,
        ResponseCode::AuthenticationFailureLoopback => "AuthenticationFailureLoopback"@,
        ResponseCode::VirtualHostAccessFailure => "VirtualHostAccessFailure"@,
        ResponseCode::UnknownFrame => "UnknownFrame"@,
        ResponseCode::FrameTooLarge => "FrameTooLarge"@,
        ResponseCode::InternalError => "InternalError"@,
        ResponseCode::AccessRefused => "AccessRefused"@,
        ResponseCode::PreconditionFailed => "PreconditionFailed"@,
        ResponseCode::PublisherDoesNotExist => "PublisherDoesNotExist"@,
        ResponseCode::OffsetNotFound => "OffsetNotFound"@,
    }
}

/// The rendering of a batch result: one status name per line.
pub open spec fn statuses_text(s: Seq<ResponseCode>) -> Seq<char>
    decreases s.len(),
{
    if s.len() == 0 {
        Seq::empty()
    } else {
        statuses_text(s.drop_last()) + code_name(s.last()) + "\r\n"@
    }
}

/// Appends the diagnostic name of `c` to `buf`.
fn append_code_name(buf: &mut String, c: ResponseCode)
    ensures
        final(buf)@ == old(buf)@ + code_name(c),
{
    match c {
        ResponseCode::Okay => buf.append("Ok"),
        ResponseCode::StreamDoesNotExist => buf.append("StreamDoesNotExist"),
        ResponseCode::SubscriptionIdAlreadyExists => buf.append("SubscriptionIdAlreadyExists"),
        ResponseCode::SubscriptionIdDoesNotExist => buf.append("SubscriptionIdDoesNotExist"),
        ResponseCode::StreamAlreadyExists => buf.append("StreamAlreadyExists"),
        ResponseCode::StreamNotAvailable => buf.append("StreamNotAvailable"),
        ResponseCode::SaslMechanismNotSupported => buf.append("SaslMechanismNotSupported"),
        ResponseCode::AuthenticationFailure => buf.append("AuthenticationFailure"),
        ResponseCode::SaslError => buf.append("SaslError"),
        ResponseCode::SaslChallange => buf.append("SaslChallange"),
        ResponseCode::AuthenticationFailureLoopback => buf.append(
            "AuthenticationFailureLoopback",
        ),
        ResponseCode::VirtualHostAccessFailure => buf.append("VirtualHostAccessFailure"),
        ResponseCode::UnknownFrame => buf.append("UnknownFrame"),
        ResponseCode::FrameTooLarge => buf.append("FrameTooLarge"),
        ResponseCode::InternalError => buf.append("InternalError"),
        ResponseCode::AccessRefused => buf.append("AccessRefused"),
        ResponseCode::PreconditionFailed => buf.append("PreconditionFailed"),
        ResponseCode::PublisherDoesNotExist => buf.append("PublisherDoesNotExist"),
        ResponseCode::OffsetNotFound => buf.append("OffsetNotFound"),
    }
}

/// Renders a batch result, one status name per line.
pub fn render_statuses(v: &Vec<ResponseCode>) -> (r: String)
    ensures
        r@ == statuses_text(v@),
{
    let mut buf = String::new();
    let mut i: usize = 0;
    while i < v.len()
        invariant
            0 <= i <= v@.len(),
            buf@ == statuses_text(v@.take(i as int)),
        decreases v@.len() - i,
    {
        append_code_name(&mut buf, v[i]);
        buf.append("\r\n");
        proof {
            let pre = v@.take(i as int);
            let post = v@.take(i + 1 as int);
            assert(post.drop_last() =~= pre);
            assert(post.last() == v@[i as int]);
        }
        i = i + 1;
    }
    proof {
        assert(v@.take(v@.len() as int) =~= v@);
    }
    buf
}

/// A key-to-value listing after one staging step: the value under `k` is
/// replaced in place when the key is already present, else appended.
pub open spec fn upserted(
    s: Seq<(Seq<char>, PropertyModel)>,
    k: Seq<char>,
    v: PropertyModel,
) -> Seq<(Seq<char>, PropertyModel)> {
    if exists|j: int| 0 <= j < s.len() && (#[trigger] s[j]).0 == k {
        s.update(choose|j: int| 0 <= j < s.len() && (#[trigger] s[j]).0 == k, (k, v))
    } else {
        s.push((k, v))
    }
}

/// The producer session's verified state: the deferred configuration, the
/// chosen variant once built, the pending queue, the property staging
/// area, and the last batch result.
pub struct ProducerSession {
    config: Option<ProducerConfig>,
    variant: Option<ProducerVariant>,
    messages: Vec<Message>,
    staged: Vec<(String, PropertyValue)>,
    statuses: Vec<ResponseCode>,
}

impl ProducerSession {
    /// The configuration accumulator, until `begin_build` consumes it.
    pub closed spec fn config_spec(self) -> Option<ProducerConfig> {
        self.config
    }

    /// The variant the session was built as, once built.
    pub closed spec fn variant_spec(self) -> Option<ProducerVariant> {
        self.variant
    }

    /// Whether the session has been built.
    pub open spec fn is_built(self) -> bool {
        self.variant_spec() is Some
    }

    /// The pending queue, in submission order.
    pub closed spec fn pending(self) -> Seq<Message> {
        self.messages@
    }

    /// The staged properties for the next message, keys by content.
    pub closed spec fn staged_model(self) -> Seq<(Seq<char>, PropertyModel)> {
        self.staged@.map_values(|e: (String, PropertyValue)| (e.0@, e.1@))
    }

    /// The last batch result, in submission order.
    pub closed spec fn statuses_seq(self) -> Seq<ResponseCode> {
        self.statuses@
    }

    /// The session invariant: no property key is staged twice.
    pub closed spec fn wf(self) -> bool {
        forall|i: int, j: int|
            0 <= i < j < self.staged@.len() ==> (#[trigger] self.staged@[i]).0@ != (
            #[trigger] self.staged@[j]).0@
    }

    /// A fresh session: nothing configured, nothing built, nothing queued.
    pub fn new() -> (r: Self)
        ensures
            r.wf(),
            r.config_spec() matches Some(c) && c.name is None && c.batch_delay_ms is None
                && c.batch_size is None,
            r.variant_spec() is None,
            r.pending().len() == 0,
            r.staged_model().len() == 0,
            r.statuses_seq().len() == 0,
    {
        ProducerSession {
            config: Some(ProducerConfig { name: None, batch_delay_ms: None, batch_size: None }),
            variant: None,
            messages: Vec::new(),
            staged: Vec::new(),
            statuses: Vec::new(),
        }
    }

    /// Names the producer, which selects the deduplicating variant at
    /// build time.  Fails once the configuration has been consumed.
    pub fn set_name(&mut self, name: String) -> (r: Result<(), SessionError>)
        ensures
            old(self).config_spec() matches Some(c) ==> ({
                &&& r is Ok
                &&& final(self).config_spec() == Some(
                    (ProducerConfig { name: Some(name), ..c }),
                )
                &&& final(self).variant_spec() == old(self).variant_spec()
                &&& final(self).pending() == old(self).pending()
                &&& final(self).staged_model() == old(self).staged_model()
                &&& final(self).statuses_seq() == old(self).statuses_seq()
                &&& (old(self).wf() ==> final(self).wf())
            }),
            old(self).config_spec() is None ==> (r matches Err(e) && e is SpentBuilder
                && *final(self) == *old(self)),
    {
        match &mut self.config {
            Some(c) => {
                c.name = Some(name);
                Ok(())
            },
            None => Err(SessionError::SpentBuilder),
        }
    }

    /// Sets the client-side batch delay, in milliseconds.  Fails once the
    /// configuration has been consumed.
    pub fn set_batch_delay(&mut self, delay_ms: u64) -> (r: Result<(), SessionError>)
        ensures
            old(self).config_spec() matches Some(c) ==> ({
                &&& r is Ok
                &&& final(self).config_spec() == Some(
                    (ProducerConfig { batch_delay_ms: Some(delay_ms), ..c }),
                )
                &&& final(self).variant_spec() == old(self).variant_spec()
                &&& final(self).pending() == old(self).pending()
                &&& final(self).staged_model() == old(self).staged_model()
                &&& final(self).statuses_seq() == old(self).statuses_seq()
                &&& (old(self).wf() ==> final(self).wf())
            }),
            old(self).config_spec() is None ==> (r matches Err(e) && e is SpentBuilder
                && *final(self) == *old(self)),
    {
        match &mut self.config {
            Some(c) => {
                c.batch_delay_ms = Some(delay_ms);
                Ok(())
            },
            None => Err(SessionError::SpentBuilder),
        }
    }

    /// Sets the client-side batch size.  Fails once the configuration has
    /// been consumed.
    pub fn set_batch_size(&mut self, size: usize) -> (r: Result<(), SessionError>)
        ensures
            old(self).config_spec() matches Some(c) ==> ({
                &&& r is Ok
                &&& final(self).config_spec() == Some(
                    (ProducerConfig { batch_size: Some(size), ..c }),
                )
                &&& final(self).variant_spec() == old(self).variant_spec()
                &&& final(self).pending() == old(self).pending()
                &&& final(self).staged_model() == old(self).staged_model()
                &&& final(self).statuses_seq() == old(self).statuses_seq()
                &&& (old(self).wf() ==> final(self).wf())
            }),
            old(self).config_spec() is None ==> (r matches Err(e) && e is SpentBuilder
                && *final(self) == *old(self)),
    {
        match &mut self.config {
            Some(c) => {
                c.batch_size = Some(size);
                Ok(())
            },
            None => Err(SessionError::SpentBuilder),
        }
    }

    /// Resolves the connection handle against the registry, consumes the
    /// configuration, and yields the settings the shell must open the
    /// broker-side producer with.  Fails with `NoProducer` when the
    /// handle names no registered connection (leaving the configuration
    /// for a later attempt) and with `AlreadyBuilt` when the
    /// configuration was consumed before.
    pub fn begin_build<T>(&mut self, reg: &HandleRegistry<T>, handle: i32) -> (r: Result<
        ProducerConfig,
        SessionError,
    >)
        ensures
            !reg.has(handle) ==> (r matches Err(e) && e is NoProducer && *final(self) == *old(
                self,
            )),
            reg.has(handle) && old(self).config_spec() is None ==> (r matches Err(e)
                && e is AlreadyBuilt && *final(self) == *old(self)),
            (reg.has(handle) && old(self).config_spec() is Some) ==> ({
                &&& old(self).config_spec() matches Some(c)
                &&& r matches Ok(plan)
                &&& plan == c
                &&& final(self).config_spec() is None
                &&& final(self).variant_spec() == old(self).variant_spec()
                &&& final(self).pending() == old(self).pending()
                &&& final(self).staged_model() == old(self).staged_model()
                &&& final(self).statuses_seq() == old(self).statuses_seq()
                &&& (old(self).wf() ==> final(self).wf())
            }),
    {
        if !contains_environment(reg, handle) {
            return Err(SessionError::NoProducer);
        }
        let mut taken: Option<ProducerConfig> = None;
        core::mem::swap(&mut taken, &mut self.config);
        match taken {
            Some(c) => Ok(c),
            None => Err(SessionError::AlreadyBuilt),
        }
    }

    /// Records that the broker-side producer opened, fixing the variant
    /// the plan called for: deduplicating exactly when a name was set.
    pub fn complete_build(&mut self, plan: &ProducerConfig)
        ensures
            final(self).variant_spec() == Some(
                if plan.name is Some {
                    ProducerVariant::Deduplicating
                } else {
                    ProducerVariant::NonDeduplicating
                },
            ),
            final(self).is_built(),
            final(self).config_spec() == old(self).config_spec(),
            final(self).pending() == old(self).pending(),
            final(self).staged_model() == old(self).staged_model(),
            final(self).statuses_seq() == old(self).statuses_seq(),
            old(self).wf() ==> final(self).wf(),
    {
        if plan.name.is_some() {
            self.variant = Some(ProducerVariant::Deduplicating);
        } else {
            self.variant = Some(ProducerVariant::NonDeduplicating);
        }
    }

    /// Stages one property for the next message: marshals the host value
    /// and stores it under `key`, replacing any value staged under the
    /// same key.  Fails only when the value cannot be marshaled, leaving
    /// everything unchanged.
    pub fn set_application_property(&mut self, key: String, value: DynamicValue) -> (r: Result<
        (),
        SessionError,
    >)
        requires
            old(self).wf(),
        ensures
            final(self).wf(),
            final(self).config_spec() == old(self).config_spec(),
            final(self).variant_spec() == old(self).variant_spec(),
            final(self).pending() == old(self).pending(),
            final(self).statuses_seq() == old(self).statuses_seq(),
            r is Ok ==> ({
                &&& to_broker_model(value@) matches Some(pm)
                &&& final(self).staged_model() == upserted(old(self).staged_model(), key@, pm)
            }),
            r matches Err(e) ==> (e is CodecError && to_broker_model(value@) is None
                && final(self).staged_model() == old(self).staged_model()),
    {
        let p = match to_broker(value) {
            Ok(p) => p,
            Err(e) => {
                return Err(e);
            },
        };
        let n = self.staged.len();
        let mut i: usize = 0;
        while i < n
            invariant
                old(self).wf(),
                to_broker_model(value@) == Some(p@),
                i <= n == self.staged@.len(),
                *self == *old(self),
                forall|j: int| 0 <= j < i ==> (#[trigger] self.staged@[j]).0@ != key@,
            decreases n - i,
        {
            if str_eq(self.staged[i].0.as_str(), key.as_str()) {
                let ghost pre = self.staged@;
                self.staged.remove(i);
                self.staged.insert(i, (key, p));
                proof {
                    assert(self.staged@ =~= pre.update(i as int, (key, p)));
                    assert forall|a: int, b: int|
                        0 <= a < b < self.staged@.len() implies (#[trigger] self.staged@[a]).0@
                        != (#[trigger] self.staged@[b]).0@ by {
                        if a != i && b != i {
                            assert(self.staged@[a] == pre[a]);
                            assert(self.staged@[b] == pre[b]);
                        } else if a == i {
                            assert(self.staged@[b] == pre[b]);
                            assert(pre[b].0@ != key@);
                        } else {
                            assert(self.staged@[a] == pre[a]);
                            assert(pre[a].0@ != key@);
                        }
                    }
                    let m0 = old(self).staged_model();
                    assert(exists|j: int| 0 <= j < m0.len() && (#[trigger] m0[j]).0 == key@) by {
                        assert(m0[i as int].0 == pre[i as int].0@);
                    }
                    let j = choose|j: int| 0 <= j < m0.len() && (#[trigger] m0[j]).0 == key@;
                    assert(j == i as int) by {
                        if j < i {
                            assert(pre[j].0@ != key@);
                        }
                        if j > i {
                            assert(m0[j].0 == pre[j].0@);
                            assert(pre[i as int].0@ == key@);
                        }
                    }
                    let m1 = self.staged_model();
                    let mu = upserted(m0, key@, p@);
                    assert(mu == m0.update(i as int, (key@, p@)));
                    assert(m1.len() == mu.len());
                    assert forall|a: int| 0 <= a < m1.len() implies m1[a] == mu[a] by {
                        assert(m1[a] == (self.staged@[a].0@, self.staged@[a].1@));
                        if a == i {
                            assert(self.staged@[a] == (key, p));
                        } else {
                            assert(self.staged@[a] == pre[a]);
                            assert(m0[a] == (pre[a].0@, pre[a].1@));
                        }
                    }
                    assert(m1 =~= mu);
                }
                return Ok(());
            }
            i = i + 1;
        }
        self.staged.push((key, p));
        proof {
            let m0 = old(self).staged_model();
            assert(!exists|j: int| 0 <= j < m0.len() && (#[trigger] m0[j]).0 == key@) by {
                assert forall|j: int| 0 <= j < m0.len() implies (#[trigger] m0[j]).0 != key@ by {
                    assert(m0[j].0 == old(self).staged@[j].0@);
                }
            }
            assert(self.staged_model() =~= upserted(m0, key@, p@));
            assert forall|a: int, b: int|
                0 <= a < b < self.staged@.len() implies (#[trigger] self.staged@[a]).0@ != (
            #[trigger] self.staged@[b]).0@ by {
                if b == self.staged@.len() - 1 {
                    assert(self.staged@[a] == old(self).staged@[a]);
                }
            }
        }
        Ok(())
    }

    /// Builds one message from `body` and the staged properties, appends
    /// it to the pending queue in submission order, and clears the staging
    /// area, so staged properties apply only to the next message.  Fails
    /// with `NoProducer` before a successful build.
    pub fn add_message(&mut self, body: Vec<u8>) -> (r: Result<(), SessionError>)
        ensures
            old(self).wf() ==> final(self).wf(),
            final(self).config_spec() == old(self).config_spec(),
            final(self).variant_spec() == old(self).variant_spec(),
            final(self).statuses_seq() == old(self).statuses_seq(),
            old(self).is_built() ==> ({
                &&& r is Ok
                &&& final(self).pending().len() == old(self).pending().len() + 1
                &&& forall|i: int|
                    0 <= i < old(self).pending().len() ==> final(self).pending()[i] == old(
                        self,
                    ).pending()[i]
                &&& final(self).pending().last()@.body == body@
                &&& final(self).pending().last()@.properties == old(self).staged_model()
                &&& final(self).staged_model().len() == 0
            }),
            !old(self).is_built() ==> (r matches Err(e) && e is NoProducer && *final(self) == *old(
                self,
            )),
    {
        if self.variant.is_none() {
            return Err(SessionError::NoProducer);
        }
        let mut props: Vec<(String, PropertyValue)> = Vec::new();
        core::mem::swap(&mut props, &mut self.staged);
        self.messages.push(Message { body, properties: props });
        Ok(())
    }

    /// Takes the whole pending queue for sending: the queue is empty again
    /// whatever happens next.  Fails with `NoProducer` before a successful
    /// build.
    pub fn take_batch(&mut self) -> (r: Result<Vec<Message>, SessionError>)
        ensures
            old(self).wf() ==> final(self).wf(),
            final(self).config_spec() == old(self).config_spec(),
            final(self).variant_spec() == old(self).variant_spec(),
            final(self).staged_model() == old(self).staged_model(),
            final(self).statuses_seq() == old(self).statuses_seq(),
            final(self).pending().len() == 0,
            old(self).is_built() ==> (r matches Ok(batch) && batch@ == old(self).pending()),
            !old(self).is_built() ==> (r matches Err(e) && e is NoProducer),
    {
        let mut batch: Vec<Message> = Vec::new();
        core::mem::swap(&mut batch, &mut self.messages);
        if self.variant.is_none() {
            return Err(SessionError::NoProducer);
        }
        Ok(batch)
    }

    /// Records a batch's confirmations: orders them by the publishing id
    /// the broker assigned, keeps the statuses as the batch result, and
    /// reports `NotAllDelivered` when any status is not `Okay` — the
    /// statuses stay retrievable either way.
    pub fn record_confirmations(&mut self, confirms: Vec<Confirmation>) -> (r: Result<
        (),
        SessionError,
    >)
        ensures
            old(self).wf() ==> final(self).wf(),
            final(self).config_spec() == old(self).config_spec(),
            final(self).variant_spec() == old(self).variant_spec(),
            final(self).pending() == old(self).pending(),
            final(self).staged_model() == old(self).staged_model(),
            exists|sc: Seq<Confirmation>|
                {
                    &&& #[trigger] sc.to_multiset() == confirms@.to_multiset()
                    &&& sorted_by_id(sc)
                    &&& final(self).statuses_seq() == sc.map_values(
                        |c: Confirmation| c.status,
                    )
                },
            final(self).statuses_seq().len() == confirms@.len(),
            r is Ok <==> (forall|i: int|
                0 <= i < final(self).statuses_seq().len() ==> final(self).statuses_seq()[i]
                    is Okay),
    {
        let sorted = sort_confirmations(confirms);
        let ghost sc = sorted@;
        let mut sts: Vec<ResponseCode> = Vec::new();
        let mut all_ok = true;
        let mut i: usize = 0;
        while i < sorted.len()
            invariant
                0 <= i <= sorted@.len(),
                sts@ =~= sorted@.take(i as int).map_values(|c: Confirmation| c.status),
                all_ok <==> (forall|j: int| 0 <= j < i ==> (#[trigger] sorted@[j]).status is Okay),
            decreases sorted@.len() - i,
        {
            let c = sorted[i];
            sts.push(c.status);
            if !matches!(c.status, ResponseCode::Okay) {
                all_ok = false;
            }
            proof {
                let pre = sorted@.take(i as int).map_values(|c: Confirmation| c.status);
                let post = sorted@.take(i + 1 as int).map_values(|c: Confirmation| c.status);
                assert(post =~= pre.push(sorted@[i as int].status));
            }
            i = i + 1;
        }
        self.statuses = sts;
        proof {
            assert(sorted@.take(sorted@.len() as int) =~= sorted@);
            assert(self.statuses_seq() == sc.map_values(|c: Confirmation| c.status));
            assert(sc.map_values(|c: Confirmation| c.status).len() == sc.len());
            assert forall|j: int| 0 <= j < self.statuses_seq().len() implies #[trigger] self.statuses_seq()[j]
                == sorted@[j].status by {
                assert(sc.map_values(|c: Confirmation| c.status)[j] == sorted@[j].status);
            }
            if forall|j: int| 0 <= j < sorted@.len() ==> (#[trigger] sorted@[j]).status is Okay {
                assert forall|j: int| 0 <= j < self.statuses_seq().len() implies #[trigger] self.statuses_seq()[j]
                    is Okay by {
                    assert(sorted@[j].status is Okay);
                }
            } else {
                let j = choose|j: int| 0 <= j < sorted@.len() && !((#[trigger] sorted@[j]).status is Okay);
                assert(self.statuses_seq()[j] == sorted@[j].status);
            }
        }
        if all_ok {
            Ok(())
        } else {
            Err(SessionError::NotAllDelivered)
        }
    }

    /// Renders the last batch result for diagnostics, one status per line,
    /// in submission order.
    pub fn statuses(&self) -> (r: String)
        ensures
            r@ == statuses_text(self.statuses_seq()),
    {
        render_statuses(&self.statuses)
    }
}

} // verus!
