//! The balance subscriber: a background task's state. It holds the
//! session's fixed storage path and unlocking key, asks for exactly one
//! persistence per balance-update event while it is active, and ends —
//! alone, never taking the session loop with it — when persistence or the
//! node connection fails.

use vstd::prelude::*;
use vstd::string::StringExecFns;
use crate::numeral::dec_str;
use crate::numeral::u64_to_dec;

verus! {

/// A request to persist the wallet: write the handle's state to `path`,
/// encrypted with `key`. The same key that opened or created the wallet
/// must be used for every save, or the persisted state becomes unreadable.
#[derive(Debug, Clone, PartialEq, Eq)]
pub struct PersistRequest {
    pub path: String,
    pub key: Vec<u8>,
}

/// The mathematical shape of a [`PersistRequest`].
pub ghost struct PersistRequestView {
    pub path: Seq<char>,
    pub key: Seq<u8>,
}

impl View for PersistRequest {
    type V = PersistRequestView;

    open spec fn view(&self) -> PersistRequestView {
        PersistRequestView { path: self.path@, key: self.key@ }
    }
}

/// The subscriber's state. `storage` and `key` are fixed for the session;
/// `active` is whether the subscriber still persists updates.
#[derive(Debug)]
pub struct Subscriber {
    storage: String,
    key: Vec<u8>,
    active: bool,
}

/// The mathematical shape of a [`Subscriber`].
pub ghost struct SubscriberView {
    pub storage: Seq<char>,
    pub key: Seq<u8>,
    pub active: bool,
}

impl View for Subscriber {
    type V = SubscriberView;

    closed spec fn view(&self) -> SubscriberView {
        SubscriberView { storage: self.storage@, key: self.key@, active: self.active }
    }
}

/// What one balance-update event asks of subscriber state `m`: while `m`
/// is active, exactly one persistence, carrying `m`'s storage path and
/// unlocking key; after the subscriber has ended, none.
pub open spec fn spec_update_request(m: SubscriberView) -> Option<PersistRequestView> {
    if m.active {
        Some(PersistRequestView { path: m.storage, key: m.key })
    } else {
        None
    }
}

/// The subscriber after a persistence outcome: a failure ends it, a success
/// leaves it as it was; its path and key never change.
pub open spec fn spec_after_persist(m: SubscriberView, ok: bool) -> SubscriberView {
    SubscriberView { active: m.active && ok, ..m }
}

/// The subscriber after the node connection has failed: ended.
pub open spec fn spec_after_connection_failure(m: SubscriberView) -> SubscriberView {
    SubscriberView { active: false, ..m }
}

impl Subscriber {
    /// Starts the subscriber for a session, capturing the session's storage
    /// path and unlocking key.
    pub fn new(storage: String, key: Vec<u8>) -> (s: Subscriber)
        ensures
            s@.storage == storage@,
            s@.key == key@,
            s@.active,
    {
        Subscriber { storage, key, active: true }
    }

    /// Whether the subscriber still persists updates.
    pub fn is_active(&self) -> (r: bool)
        ensures
            r == self@.active,
    {
        self.active
    }

    /// Handles one balance-update event. While the subscriber is active,
    /// the event yields a log line with the updated value and exactly one
    /// persistence request, carrying the session's fixed unlocking key and
    /// storage path; once the subscriber has ended, it yields nothing.
    pub fn on_balance_update(&mut self, balance: u64) -> (r: Option<(String, PersistRequest)>)
        ensures
            final(self)@ == old(self)@,
            r is Some <==> spec_update_request(old(self)@) is Some,
            r matches Some(e) ==> Some(e.1@) == spec_update_request(old(self)@) && e.0@
                == "Balance update: "@ + dec_str(balance as nat),
    {
        if self.active {
            let mut line = "Balance update: ".to_owned();
            let numeral = u64_to_dec(balance);
            line.append(numeral.as_str());
            let request = PersistRequest { path: self.storage.clone(), key: copy_bytes(&self.key) };
            Some((line, request))
        } else {
            None
        }
    }

    /// Records the outcome of a persistence request. A failure ends the
    /// subscriber — its save capability is gone for subsequent updates —
    /// and is reported, never silently swallowed; nothing here touches the
    /// session loop.
    pub fn on_persist_result(&mut self, ok: bool) -> (report: Option<String>)
        ensures
            final(self)@ == spec_after_persist(old(self)@, ok),
            ok ==> report is None,
            !ok ==> (report matches Some(m) && m@ == "Could not save wallet"@),
    {
        if ok {
            None
        } else {
            self.active = false;
            Some("Could not save wallet".to_owned())
        }
    }

    /// Records an irrecoverable failure of the node connection: the
    /// subscriber ends and the failure is reported. The balance will no
    /// longer update, but the session stays usable on in-memory state.
    pub fn on_connection_failure(&mut self, message: &str) -> (report: String)
        ensures
            final(self)@ == spec_after_connection_failure(old(self)@),
            report@ == "Fatal error: "@ + message@,
    {
        self.active = false;
        let mut report = "Fatal error: ".to_owned();
        report.append(message);
        report
    }
}

/// One balance-update event on a live subscriber triggers exactly one
/// persistence request, and it carries the session's fixed unlocking key
/// and storage path: the ones the subscriber holds, which no event ever
/// changes.
pub proof fn lemma_update_persists_once_with_session_pair(m: SubscriberView)
    requires
        m.active,
    ensures
        spec_update_request(m) matches Some(p) && p.path == m.storage && p.key == m.key,
{
}

/// Copies a byte string.
fn copy_bytes(v: &Vec<u8>) -> (r: Vec<u8>)
    ensures
        r@ == v@,
{
    let mut r: Vec<u8> = Vec::new();
    let mut i: usize = 0;
    while i < v.len()
        invariant
            i <= v.len(),
            r@ == v@.take(i as int),
        decreases v.len() - i,
    {
        r.push(v[i]);
        proof {
            assert(r@ =~= v@.take(i as int + 1));
        }
        i += 1;
    }
    proof {
        assert(r@ =~= v@);
    }
    r
}

} // verus!
