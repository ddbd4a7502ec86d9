//! A tamper-evident audit log.
//!
//! Every entry records the hash of the entry before it and its own hash: the
//! SHA-256 digest, in lower-case hex, of the entry's serialized form (its JSON
//! text with its own hash left empty, which the caller supplies) followed by
//! the previous hash. Changing an earlier entry breaks the chain.

use vstd::prelude::*;

use sha2::Digest;

use crate::compliance::error::ComplianceResult;
use crate::text::push_char;
use crate::types::Timestamp;

verus! {

/// Kind of an audited event.
#[derive(Debug, Clone, Copy, PartialEq, Eq, Hash, Structural)]
pub enum AuditEventType {
    /// A trade was executed.
    TradeExecuted,
    /// An order was placed.
    OrderPlaced,
    /// An order was cancelled.
    OrderCancelled,
    /// A configuration was changed.
    ConfigChanged,
}

/// One audited event.
#[derive(Debug, Clone)]
pub struct AuditEvent {
    /// Identifier of the event (a UUID as a 128-bit number).
    pub event_id: u128,
    /// When the event happened.
    pub timestamp: Timestamp,
    /// Kind of event.
    pub event_type: AuditEventType,
    /// Who acted (a user or a strategy).
    pub actor: String,
    /// What was done.
    pub action: String,
    /// Kind of resource acted on.
    pub resource_type: String,
    /// Identifier of the resource.
    pub resource_id: String,
    /// Further details, as JSON text.
    pub details: String,
    /// Hash of the entry before this one (empty for the first entry).
    pub previous_hash: String,
    /// Hash of this entry.
    pub event_hash: String,
    /// Address the action came from, if known.
    pub ip_address: Option<String>,
    /// Session the action belongs to, if known.
    pub session_id: Option<String>,
}

/// The SHA-256 digest of `data`, as the `sha2` crate computes it.
pub uninterp spec fn sha256_digest(data: Seq<u8>) -> Seq<u8>;

/// Lower-case hex digit of `d` (below 16).
pub open spec fn hex_digit(d: int) -> char {
    if d < 10 {
        (48 + d) as char
    } else {
        (87 + d) as char
    }
}

/// Bytes in lower-case hex, two digits each, high digit first.
pub open spec fn hex_lower(b: Seq<u8>) -> Seq<char>
    decreases b.len(),
{
    if b.len() == 0 {
        Seq::empty()
    } else {
        hex_lower(b.drop_last()) + seq![hex_digit((b.last() / 16) as int), hex_digit((b.last() % 16) as int)]
    }
}

/// What is hashed for an entry: its serialized form, then the previous hash.
pub open spec fn hash_input(encoded: Seq<u8>, previous_hash: Seq<char>) -> Seq<u8> {
    encoded + vstd::utf8::encode_utf8(previous_hash)
}

/// The hash of an entry with serialized form `encoded` that follows `previous_hash`.
pub open spec fn entry_hash(encoded: Seq<u8>, previous_hash: Seq<char>) -> Seq<char> {
    hex_lower(sha256_digest(hash_input(encoded, previous_hash)))
}

/// The hash that the entry after `s` should record as previous: empty at the start.
pub open spec fn chain_tip(s: Seq<AuditEvent>) -> Seq<char> {
    if s.len() == 0 {
        Seq::empty()
    } else {
        s.last().event_hash@
    }
}

/// There is one serialized form per entry, each entry records the hash of
/// the one before (empty for the first), and carries the hash of its
/// serialized form and that previous hash.
pub open spec fn chain_valid(s: Seq<AuditEvent>, encodings: Seq<Seq<u8>>) -> bool {
    &&& encodings.len() == s.len()
    &&& forall|i: int|
        #![trigger s[i]]
        0 <= i < s.len() ==> {
            &&& s[i].previous_hash@ == chain_tip(s.take(i))
            &&& s[i].event_hash@ == entry_hash(encodings[i], s[i].previous_hash@)
        }
}

/// Hex text is two digits per byte.
pub proof fn lemma_hex_lower_len(b: Seq<u8>)
    ensures
        hex_lower(b).len() == 2 * b.len(),
    decreases b.len(),
{
    if b.len() > 0 {
        lemma_hex_lower_len(b.drop_last());
    }
}

/// The two events agree on everything but their hashes.
pub open spec fn same_content(a: AuditEvent, b: AuditEvent) -> bool {
    &&& a.event_id == b.event_id
    &&& a.timestamp == b.timestamp
    &&& a.event_type == b.event_type
    &&& a.actor == b.actor
    &&& a.action == b.action
    &&& a.resource_type == b.resource_type
    &&& a.resource_id == b.resource_id
    &&& a.details == b.details
    &&& a.ip_address == b.ip_address
    &&& a.session_id == b.session_id
}

/// The test "is of kind `t`".
pub open spec fn of_type(t: AuditEventType) -> spec_fn(AuditEvent) -> bool {
    |e: AuditEvent| e.event_type == t
}

/// The test "happened between `start` and `end`, both included".
pub open spec fn within(start: Timestamp, end: Timestamp) -> spec_fn(AuditEvent) -> bool {
    |e: AuditEvent| start@ <= e.timestamp@ <= end@
}

/// `sha2::Sha256::digest`: the SHA-256 digest of `data`, 32 bytes long.
#[verifier::external_body]
fn sha256(data: &[u8]) -> (r: Vec<u8>)
    ensures
        r@ == sha256_digest(data@),
        r@.len() == 32,
{
    sha2::Sha256::digest(data).to_vec()
}

/// Appends bytes.
fn push_bytes(out: &mut Vec<u8>, b: &[u8])
    ensures
        final(out)@ == old(out)@ + b@,
{
    let mut i: usize = 0;
    while i < b.len()
        invariant
            i <= b@.len(),
            out@ == old(out)@ + b@.take(i as int),
        decreases b@.len() - i,
    {
        out.push(b[i]);
        assert(b@.take(i + 1) =~= b@.take(i as int).push(b@[i as int]));
        i += 1;
    }
    assert(b@.take(b@.len() as int) =~= b@);
}

/// Lower-case hex digit of `d`.
fn hex_char(d: u8) -> (c: char)
    requires
        d < 16,
    ensures
        c == hex_digit(d as int),
{
    if d < 10 {
        (d + 48) as char
    } else {
        (d + 87) as char
    }
}

/// Bytes in lower-case hex.
fn hex_string(bytes: &Vec<u8>) -> (s: String)
    ensures
        s@ == hex_lower(bytes@),
{
    let mut s = String::new();
    let mut i: usize = 0;
    assert(bytes@.take(0) =~= Seq::<u8>::empty());
    while i < bytes.len()
        invariant
            i <= bytes@.len(),
            s@ == hex_lower(bytes@.take(i as int)),
        decreases bytes@.len() - i,
    {
        let b = bytes[i];
        push_char(&mut s, hex_char(b / 16));
        push_char(&mut s, hex_char(b % 16));
        assert(bytes@.take(i + 1).drop_last() =~= bytes@.take(i as int));
        assert(s@ =~= hex_lower(bytes@.take(i + 1)));
        i += 1;
    }
    assert(bytes@.take(bytes@.len() as int) =~= bytes@);
    s
}

/// The hash of an entry with serialized form `encoded` that follows `previous_hash`.
fn compute_event_hash(encoded: &[u8], previous_hash: &str) -> (r: String)
    ensures
        r@ == entry_hash(encoded@, previous_hash@),
        r@.len() == 64,
{
    let mut data: Vec<u8> = Vec::new();
    push_bytes(&mut data, encoded);
    push_bytes(&mut data, previous_hash.as_bytes());
    assert(data@ =~= hash_input(encoded@, previous_hash@));
    let digest = sha256(data.as_slice());
    proof {
        lemma_hex_lower_len(digest@);
    }
    hex_string(&digest)
}

/// An append-only log of audited events, chained by hashes.
#[derive(Debug, Clone)]
pub struct AuditLog {
    entries: Vec<AuditEvent>,
    last_hash: String,
}

impl AuditLog {
    /// The entries, oldest first.
    pub closed spec fn events(self) -> Seq<AuditEvent> {
        self.entries@
    }

    /// The hash that the next entry will record as previous.
    pub closed spec fn tip(self) -> Seq<char> {
        self.last_hash@
    }

    /// The chain is valid for the given serialized forms of the entries, and
    /// the recorded last hash is that of the last entry.
    pub open spec fn is_intact(self, encodings: Seq<Seq<u8>>) -> bool {
        chain_valid(self.events(), encodings) && self.tip() == chain_tip(self.events())
    }

    /// `self` is `before` with `event` appended: linked to the previous hash,
    /// given the hash of its serialized form `encoded` and that previous hash
    /// (64 hex digits), which becomes the last hash.
    pub open spec fn appends(self, before: AuditLog, event: AuditEvent, encoded: Seq<u8>) -> bool {
        let s = self.events();
        &&& s.len() == before.events().len() + 1
        &&& s.drop_last() == before.events()
        &&& same_content(s.last(), event)
        &&& s.last().previous_hash@ == before.tip()
        &&& s.last().event_hash@ == entry_hash(encoded, before.tip())
        &&& s.last().event_hash@.len() == 64
        &&& self.tip() == s.last().event_hash@
    }

    /// An empty log.
    pub fn new() -> (r: AuditLog)
        ensures
            r.events().len() == 0,
            r.tip() == Seq::<char>::empty(),
            r.is_intact(Seq::empty()),
    {
        AuditLog { entries: Vec::new(), last_hash: String::new() }
    }

    /// A log made of stored entries and a stored last hash, as they are; use
    /// `verify_integrity` to check them.
    pub fn from_entries(entries: Vec<AuditEvent>, last_hash: String) -> (r: AuditLog)
        ensures
            r.events() == entries@,
            r.tip() == last_hash@,
    {
        AuditLog { entries, last_hash }
    }

    /// Appends an event: it records the current last hash as previous, gets as
    /// its own hash that of `encoded` followed by the previous hash, and that
    /// hash becomes the last hash. `encoded` is the event's serialized form as
    /// it is stored (previous hash set to `last_hash()`, own hash empty).
    /// Always succeeds.
    pub fn log_event(&mut self, event: AuditEvent, encoded: &[u8]) -> (r: ComplianceResult<()>)
        ensures
            r is Ok,
            final(self).appends(*old(self), event, encoded@),
    {
        let mut event = event;
        event.previous_hash = self.last_hash.clone();
        event.event_hash = compute_event_hash(encoded, self.last_hash.as_str());
        self.last_hash = event.event_hash.clone();
        self.entries.push(event);
        assert(self.entries@.drop_last() =~= old(self).entries@);
        Ok(())
    }

    /// Whether `encodings` holds one serialized form per entry (each with its
    /// own hash left empty), every entry links to the one before, and every
    /// entry carries the hash of its serialized form and previous hash.
    pub fn verify_integrity(&self, encodings: &[Vec<u8>]) -> (r: bool)
        ensures
            r == chain_valid(self.events(), encodings@.map_values(|v: Vec<u8>| v@)),
    {
        let ghost enc = encodings@.map_values(|v: Vec<u8>| v@);
        if encodings.len() != self.entries.len() {
            return false;
        }
        let mut prev = String::new();
        let mut i: usize = 0;
        assert(self.entries@.take(0) =~= Seq::<AuditEvent>::empty());
        while i < self.entries.len()
            invariant
                i <= self.entries@.len(),
                encodings@.len() == self.entries@.len(),
                enc == encodings@.map_values(|v: Vec<u8>| v@),
                forall|k: int|
                    #![trigger self.entries@[k]]
                    0 <= k < i ==> {
                        &&& self.entries@[k].previous_hash@ == chain_tip(self.entries@.take(k))
                        &&& self.entries@[k].event_hash@ == entry_hash(
                            enc[k],
                            self.entries@[k].previous_hash@,
                        )
                    },
                prev@ == chain_tip(self.entries@.take(i as int)),
            decreases self.entries@.len() - i,
        {
            let entry = &self.entries[i];
            let ghost s = self.entries@;
            if !String::eq(&entry.previous_hash, &prev) {
                assert(!chain_valid(s, enc)) by {
                    assert(s[i as int].previous_hash@ != chain_tip(s.take(i as int)));
                }
                return false;
            }
            let computed = compute_event_hash(encodings[i].as_slice(), entry.previous_hash.as_str());
            if !String::eq(&computed, &entry.event_hash) {
                assert(!chain_valid(s, enc)) by {
                    assert(enc[i as int] == encodings@[i as int]@);
                    assert(s[i as int].event_hash@ != entry_hash(enc[i as int], s[i as int].previous_hash@));
                }
                return false;
            }
            prev = entry.event_hash.clone();
            proof {
                assert(s.take(i + 1).last() == s[i as int]);
                assert(enc[i as int] == encodings@[i as int]@);
            }
            i += 1;
        }
        true
    }

    /// Number of entries.
    pub fn len(&self) -> (r: usize)
        ensures
            r == self.events().len(),
    {
        self.entries.len()
    }

    /// Whether the log has no entries.
    pub fn is_empty(&self) -> (r: bool)
        ensures
            r == (self.events().len() == 0),
    {
        self.entries.len() == 0
    }

    /// The hash that the next entry will record as previous (empty for an empty log).
    pub fn last_hash(&self) -> (r: &str)
        ensures
            r@ == self.tip(),
    {
        self.last_hash.as_str()
    }

    /// The entries that happened between `start` and `end`, both included, oldest first.
    pub fn query_events(&self, start: Timestamp, end: Timestamp) -> (r: Vec<&AuditEvent>)
        ensures
            r@.map_values(|e: &AuditEvent| *e) == self.events().filter(within(start, end)),
    {
        let mut out: Vec<&AuditEvent> = Vec::new();
        let mut i: usize = 0;
        assert(self.entries@.take(0) =~= Seq::<AuditEvent>::empty());
        assert(Seq::<AuditEvent>::empty().filter(within(start, end)) =~= Seq::<AuditEvent>::empty())
            by {
            reveal(Seq::filter);
        }
        while i < self.entries.len()
            invariant
                i <= self.entries@.len(),
                out@.map_values(|e: &AuditEvent| *e) == self.entries@.take(i as int).filter(
                    within(start, end),
                ),
            decreases self.entries@.len() - i,
        {
            let e = &self.entries[i];
            let ghost before = out@;
            proof {
                assert(self.entries@.take(i + 1) =~= self.entries@.take(i as int).push(*e));
                self.entries@.take(i as int).lemma_filter_push(*e, within(start, end));
            }
            let t = e.timestamp.as_nanos();
            if start.as_nanos() <= t && t <= end.as_nanos() {
                out.push(e);
                assert(out@.map_values(|e: &AuditEvent| *e) =~= before.map_values(
                    |e: &AuditEvent| *e,
                ).push(*e));
            }
            i += 1;
        }
        assert(self.entries@.take(self.entries@.len() as int) =~= self.entries@);
        out
    }

    /// The entries of one kind, oldest first.
    pub fn query_by_type(&self, event_type: &AuditEventType) -> (r: Vec<&AuditEvent>)
        ensures
            r@.map_values(|e: &AuditEvent| *e) == self.events().filter(of_type(*event_type)),
    {
        let mut out: Vec<&AuditEvent> = Vec::new();
        let mut i: usize = 0;
        assert(self.entries@.take(0) =~= Seq::<AuditEvent>::empty());
        assert(Seq::<AuditEvent>::empty().filter(of_type(*event_type))
            =~= Seq::<AuditEvent>::empty()) by {
            reveal(Seq::filter);
        }
        while i < self.entries.len()
            invariant
                i <= self.entries@.len(),
                out@.map_values(|e: &AuditEvent| *e) == self.entries@.take(i as int).filter(
                    of_type(*event_type),
                ),
            decreases self.entries@.len() - i,
        {
            let e = &self.entries[i];
            let ghost before = out@;
            proof {
                assert(self.entries@.take(i + 1) =~= self.entries@.take(i as int).push(*e));
                self.entries@.take(i as int).lemma_filter_push(*e, of_type(*event_type));
            }
            if e.event_type == *event_type {
                out.push(e);
                assert(out@.map_values(|e: &AuditEvent| *e) =~= before.map_values(
                    |e: &AuditEvent| *e,
                ).push(*e));
            }
            i += 1;
        }
        assert(self.entries@.take(self.entries@.len() as int) =~= self.entries@);
        out
    }

    /// All entries, oldest first.
    pub fn entries(&self) -> (r: &[AuditEvent])
        ensures
            r@ == self.events(),
    {
        self.entries.as_slice()
    }
}

impl Default for AuditLog {
    /// An empty log.
    fn default() -> (r: AuditLog)
        ensures
            r.events().len() == 0,
            r.tip() == Seq::<char>::empty(),
    {
        AuditLog::new()
    }
}

/// Appending keeps a log intact: if the serialized forms `encodings` made
/// the log intact, then after appending `event` with serialized form
/// `encoded`, the log is intact for `encodings` followed by `encoded`.
pub proof fn appending_keeps_log_intact(
    before: AuditLog,
    encodings: Seq<Seq<u8>>,
    event: AuditEvent,
    encoded: Seq<u8>,
    after: AuditLog,
)
    requires
        before.is_intact(encodings),
        after.appends(before, event, encoded),
    ensures
        after.is_intact(encodings.push(encoded)),
{
    let s = after.events();
    let b = before.events();
    let e = encodings.push(encoded);
    assert(s.drop_last() =~= b);
    assert forall|i: int| 0 <= i < s.len() implies {
        &&& (#[trigger] s[i]).previous_hash@ == chain_tip(s.take(i))
        &&& s[i].event_hash@ == entry_hash(e[i], s[i].previous_hash@)
    } by {
        if i < b.len() {
            assert(s[i] == b[i]);
            assert(s.take(i) =~= b.take(i));
        } else {
            assert(s.take(i) =~= b);
        }
    }
}

/// `logs` are the states of a log from `new` through one `log_event` call
/// per event of `events`, with the serialized forms `encodings`, in turn.
pub open spec fn logged_in_turn(logs: Seq<AuditLog>, events: Seq<AuditEvent>, encodings: Seq<Seq<u8>>) -> bool {
    &&& logs.len() == events.len() + 1
    &&& encodings.len() == events.len()
    &&& logs[0].events().len() == 0
    &&& logs[0].tip() == Seq::<char>::empty()
    &&& forall|i: int|
        0 <= i < events.len() ==> #[trigger] logs[i + 1].appends(logs[i], events[i], encodings[i])
}

/// A log built by `new` and `log_event` alone holds one entry per logged
/// event, with that event's content, in order; it is intact for the
/// serialized forms it was given (so `verify_integrity` accepts it); its last
/// hash is empty when nothing was logged and otherwise the last entry's hash,
/// 64 hex digits long.
pub proof fn logging_builds_an_intact_chain(
    logs: Seq<AuditLog>,
    events: Seq<AuditEvent>,
    encodings: Seq<Seq<u8>>,
)
    requires
        logged_in_turn(logs, events, encodings),
    ensures
        logs.last().events().len() == events.len(),
        forall|i: int|
            0 <= i < events.len() ==> same_content(#[trigger] logs.last().events()[i], events[i]),
        logs.last().is_intact(encodings),
        events.len() == 0 ==> logs.last().tip() == Seq::<char>::empty(),
        events.len() > 0 ==> logs.last().tip() == logs.last().events().last().event_hash@
            && logs.last().tip().len() == 64,
    decreases events.len(),
{
    if events.len() == 0 {
        assert(chain_valid(logs[0].events(), encodings));
    } else {
        let n = events.len() - 1;
        let pl = logs.drop_last();
        let pe = events.drop_last();
        let pc = encodings.drop_last();
        assert forall|i: int| 0 <= i < pe.len() implies #[trigger] pl[i + 1].appends(pl[i], pe[i], pc[i]) by {
            assert(logs[i + 1].appends(logs[i], events[i], encodings[i]));
        }
        logging_builds_an_intact_chain(pl, pe, pc);
        assert(logs[n + 1].appends(logs[n], events[n], encodings[n]));
        assert(pl.last() == logs[n]);
        appending_keeps_log_intact(logs[n], pc, events[n], encodings[n], logs.last());
        assert(pc.push(encodings[n]) =~= encodings);
        assert forall|i: int| 0 <= i < events.len() implies same_content(
            #[trigger] logs.last().events()[i],
            events[i],
        ) by {
            if i < n {
                assert(logs.last().events()[i] == logs[n].events()[i]);
                assert(events[i] == pe[i]);
            }
        }
    }
}

} // verus!
