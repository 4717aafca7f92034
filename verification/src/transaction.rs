//! Transaction ids announced to clients, and the bounded rolling list of the
//! most recent distinct ones.

use std::collections::VecDeque;
use vstd::prelude::*;

verus! {

/// Connection id of a websocket client.
pub type ConnId = u64;

/// Name of an authentication journey (tree).
pub type JourneyId = String;

/// Id of a transaction, as it appears in the logs.
pub type TransactionId = String;

/// A transaction id together with the journey it ran through.
pub struct TransactionIdWs {
    id: TransactionId,
    journey: JourneyId,
}

impl View for TransactionIdWs {
    type V = (Seq<char>, Seq<char>);

    /// The pair (transaction id, journey name) as character sequences.
    closed spec fn view(&self) -> (Seq<char>, Seq<char>) {
        (self.id@, self.journey@)
    }
}

impl TransactionIdWs {
    /// The value made of an `(id, journey)` pair.
    pub closed spec fn of_pair(pair: (String, String)) -> Self {
        TransactionIdWs { id: pair.0, journey: pair.1 }
    }

    /// The value made of a pair views as that pair.
    pub proof fn of_pair_view(pair: (String, String))
        ensures
            Self::of_pair(pair)@ == (pair.0@, pair.1@),
    {
    }

    /// Builds the value from an `(id, journey)` pair.
    pub fn from_tuple(pair: (String, String)) -> (r: Self)
        ensures
            r@ == (pair.0@, pair.1@),
            r == Self::of_pair(pair),
    {
        let (id, journey) = pair;
        Self { id, journey }
    }

    /// The transaction id.
    pub fn id(&self) -> (r: &String)
        ensures
            r@ == self@.0,
    {
        &self.id
    }

    /// The journey name.
    pub fn journey(&self) -> (r: &String)
        ensures
            r@ == self@.1,
    {
        &self.journey
    }

    /// Gives back the `(id, journey)` pair.
    pub fn into_parts(self) -> (r: (String, String))
        ensures
            (r.0@, r.1@) == self@,
    {
        (self.id, self.journey)
    }
}

impl Clone for TransactionIdWs {
    fn clone(&self) -> (r: Self)
        ensures
            r@ == self@,
    {
        TransactionIdWs { id: self.id.clone(), journey: self.journey.clone() }
    }
}

impl PartialEq for TransactionIdWs {
    fn eq(&self, other: &Self) -> (r: bool) {
        self.id == other.id && self.journey == other.journey
    }
}

impl Eq for TransactionIdWs {}

impl vstd::std_specs::cmp::PartialEqSpecImpl for TransactionIdWs {
    open spec fn obeys_eq_spec() -> bool {
        true
    }

    open spec fn eq_spec(&self, other: &Self) -> bool {
        self@ == other@
    }
}

/// A message sent to websocket clients: a text, or a new transaction.
pub enum WsMsg {
    String(String),
    TransactionIdWs(TransactionIdWs),
}

/// A message sent to a room or a client.
pub type Msg = WsMsg;

impl<'a> From<&'a str> for WsMsg {
    /// A text message with the characters of `value`.
    fn from(value: &'a str) -> (r: Self)
        ensures
            r matches WsMsg::String(s) && s@ == value@,
    {
        WsMsg::String(value.to_owned())
    }
}

impl<'a> vstd::std_specs::convert::FromSpecImpl<&'a str> for WsMsg {
    /// A `String` cannot be named by its characters alone, so the result is
    /// stated on `from` itself.
    open spec fn obeys_from_spec() -> bool {
        false
    }

    open spec fn from_spec(v: &'a str) -> Self {
        arbitrary()
    }
}

impl From<String> for WsMsg {
    /// A text message.
    fn from(value: String) -> (r: Self) {
        WsMsg::String(value)
    }
}

impl vstd::std_specs::convert::FromSpecImpl<String> for WsMsg {
    open spec fn obeys_from_spec() -> bool {
        true
    }

    open spec fn from_spec(v: String) -> Self {
        WsMsg::String(v)
    }
}

impl From<(TransactionId, JourneyId)> for WsMsg {
    /// A new-transaction message.
    fn from(value: (TransactionId, JourneyId)) -> (r: Self) {
        WsMsg::TransactionIdWs(TransactionIdWs::from_tuple(value))
    }
}

impl vstd::std_specs::convert::FromSpecImpl<(TransactionId, JourneyId)> for WsMsg {
    open spec fn obeys_from_spec() -> bool {
        true
    }

    open spec fn from_spec(v: (TransactionId, JourneyId)) -> Self {
        WsMsg::TransactionIdWs(TransactionIdWs::of_pair(v))
    }
}

/// How many transaction ids the rolling list keeps.
pub const MAX_SIZE: usize = 50;

/// The list `s` after `v` was offered to it: unchanged when `v` is already
/// there; otherwise `v` is appended, and the oldest entry leaves first when
/// the list is full.
pub open spec fn rolled(s: Seq<(Seq<char>, Seq<char>)>, v: (Seq<char>, Seq<char>)) -> Seq<
    (Seq<char>, Seq<char>),
> {
    if s.contains(v) {
        s
    } else if s.len() >= MAX_SIZE {
        s.drop_first().push(v)
    } else {
        s.push(v)
    }
}

/// Offering a value to a list of at most `MAX_SIZE` distinct entries gives
/// again a list of at most `MAX_SIZE` distinct entries.
pub proof fn rolled_keeps_well_formed(s: Seq<(Seq<char>, Seq<char>)>, v: (Seq<char>, Seq<char>))
    requires
        s.len() <= MAX_SIZE,
        s.no_duplicates(),
    ensures
        rolled(s, v).len() <= MAX_SIZE,
        rolled(s, v).no_duplicates(),
{
    if !s.contains(v) {
        let mid = if s.len() >= MAX_SIZE {
            s.drop_first()
        } else {
            s
        };
        assert forall|a: int, b: int| 0 <= a < b < mid.len() implies mid[a] != mid[b] by {
            if s.len() >= MAX_SIZE {
                assert(mid[a] == s[a + 1] && mid[b] == s[b + 1]);
            }
        }
        assert(!mid.contains(v)) by {
            if mid.contains(v) {
                let k: int = choose|k: int| 0 <= k < mid.len() && mid[k] == v;
                if s.len() >= MAX_SIZE {
                    assert(s[k + 1] == v);
                } else {
                    assert(s[k] == v);
                }
            }
        }
        let r = mid.push(v);
        assert(r == rolled(s, v));
        assert forall|a: int, b: int| 0 <= a < b < r.len() implies r[a] != r[b] by {
            if b == mid.len() {
                assert(mid[a] == r[a]);
            } else {
                assert(mid[a] == r[a] && mid[b] == r[b]);
            }
        }
    }
}

/// Offering a value that the list already holds leaves the list exactly as
/// it was: same entries, same order.
pub proof fn rolled_known_unchanged(s: Seq<(Seq<char>, Seq<char>)>, v: (Seq<char>, Seq<char>))
    requires
        s.contains(v),
    ensures
        rolled(s, v) == s,
{
}

/// Offering a new value appends it after every entry already there, the
/// oldest entry leaving first only when the list is full.
pub proof fn rolled_new_appended(s: Seq<(Seq<char>, Seq<char>)>, v: (Seq<char>, Seq<char>))
    requires
        !s.contains(v),
        s.len() <= MAX_SIZE,
    ensures
        s.len() < MAX_SIZE ==> rolled(s, v) == s.push(v),
        s.len() == MAX_SIZE ==> rolled(s, v) == s.subrange(1, MAX_SIZE as int).push(v),
{
    if s.len() == MAX_SIZE {
        assert(s.drop_first() =~= s.subrange(1, MAX_SIZE as int));
    }
}

/// After a value is offered, the list holds it; when it was not there
/// before, it is the newest entry.
pub proof fn rolled_holds_offered(s: Seq<(Seq<char>, Seq<char>)>, v: (Seq<char>, Seq<char>))
    ensures
        rolled(s, v).contains(v),
        !s.contains(v) ==> rolled(s, v).last() == v,
{
    if !s.contains(v) {
        assert(rolled(s, v)[rolled(s, v).len() - 1] == v);
    }
}

/// Offering the same value twice does what offering it once does.
pub proof fn rolled_idempotent(s: Seq<(Seq<char>, Seq<char>)>, v: (Seq<char>, Seq<char>))
    ensures
        rolled(rolled(s, v), v) == rolled(s, v),
{
    rolled_holds_offered(s, v);
}

/// Only the oldest entry can leave the list, and only when the list was full
/// and the offered value new; every other entry stays, in the same order.
pub proof fn rolled_evicts_only_oldest(s: Seq<(Seq<char>, Seq<char>)>, v: (Seq<char>, Seq<char>))
    ensures
        forall|x: (Seq<char>, Seq<char>)|
            s.contains(x) && !#[trigger] rolled(s, v).contains(x) ==> x == s[0] && s.len()
                >= MAX_SIZE && !s.contains(v),
        !s.contains(v) && s.len() >= MAX_SIZE ==> rolled(s, v) == s.drop_first().push(v),
        !s.contains(v) && s.len() < MAX_SIZE ==> rolled(s, v) == s.push(v),
{
    assert forall|x: (Seq<char>, Seq<char>)|
        s.contains(x) && !#[trigger] rolled(s, v).contains(x) implies x == s[0] && s.len()
            >= MAX_SIZE && !s.contains(v) by {
        let k: int = choose|k: int| 0 <= k < s.len() && s[k] == x;
        if !s.contains(v) {
            if s.len() >= MAX_SIZE {
                if k > 0 {
                    assert(rolled(s, v)[k - 1] == x);
                }
            } else {
                assert(rolled(s, v)[k] == x);
            }
        }
    }
}

/// The most recent distinct transaction ids, oldest first.
pub struct RollingBuffer {
    ids: VecDeque<TransactionIdWs>,
}

impl View for RollingBuffer {
    type V = Seq<(Seq<char>, Seq<char>)>;

    closed spec fn view(&self) -> Seq<(Seq<char>, Seq<char>)> {
        self.ids@.map_values(|t: TransactionIdWs| t@)
    }
}

impl RollingBuffer {
    /// At most `MAX_SIZE` entries, no entry twice: every list keeps this.
    #[verifier::type_invariant]
    pub open spec fn well_formed(&self) -> bool {
        &&& self@.len() <= MAX_SIZE
        &&& self@.no_duplicates()
    }

    /// An empty list.
    pub fn new() -> (r: Self)
        ensures
            r@ == Seq::<(Seq<char>, Seq<char>)>::empty(),
            r.well_formed(),
    {
        let r = RollingBuffer { ids: VecDeque::new() };
        assert(r@ =~= Seq::<(Seq<char>, Seq<char>)>::empty());
        r
    }

    /// Number of entries.
    pub fn len(&self) -> (r: usize)
        ensures
            r == self@.len(),
    {
        self.ids.len()
    }

    /// Whether an entry equal to `value` is in the list.
    pub fn contains(&self, value: &TransactionIdWs) -> (r: bool)
        ensures
            r == self@.contains(value@),
    {
        let n: usize = self.ids.len();
        let mut i: usize = 0;
        while i < n
            invariant
                n == self.ids@.len(),
                i <= n,
                forall|j: int| 0 <= j < i ==> self@[j] != value@,
            decreases n - i,
        {
            let item = &self.ids[i];
            if item.id == value.id && item.journey == value.journey {
                assert(self@[i as int] == value@);
                return true;
            }
            i += 1;
        }
        proof {
            if self@.contains(value@) {
                let k: int = choose|k: int| 0 <= k < self@.len() && self@[k] == value@;
                assert(self@[k] != value@);
            }
        }
        false
    }

    /// The transaction ids, oldest first.
    pub fn transaction_ids(&self) -> (r: Vec<String>)
        ensures
            r@.len() == self@.len(),
            forall|j: int| 0 <= j < r@.len() ==> #[trigger] r@[j]@ == self@[j].0,
    {
        let n: usize = self.ids.len();
        let mut out: Vec<String> = Vec::new();
        let mut i: usize = 0;
        while i < n
            invariant
                n == self.ids@.len(),
                i <= n,
                out@.len() == i,
                forall|j: int| 0 <= j < i ==> #[trigger] out@[j]@ == self@[j].0,
            decreases n - i,
        {
            out.push(self.ids[i].id.clone());
            i += 1;
        }
        out
    }
}

/// Offers `value` to the rolling list. When it is already there, nothing
/// changes and the answer is `None`; otherwise it is appended, the oldest
/// entry having left first if the list was full, and the answer is `Some(())`.
pub fn add_to_rolling_buffer(buffer: &mut RollingBuffer, value: TransactionIdWs) -> (r: Option<()>)
    ensures
        final(buffer).well_formed(),
        final(buffer)@ == rolled(old(buffer)@, value@),
        r is Some <==> !old(buffer)@.contains(value@),
        old(buffer)@.contains(value@) ==> final(buffer)@ == old(buffer)@,
        !old(buffer)@.contains(value@) && old(buffer)@.len() < MAX_SIZE ==> final(buffer)@ == old(
            buffer,
        )@.push(value@),
        !old(buffer)@.contains(value@) && old(buffer)@.len() == MAX_SIZE ==> final(buffer)@ == old(
            buffer,
        )@.subrange(1, MAX_SIZE as int).push(value@),
{
    proof {
        use_type_invariant(&*buffer);
        if buffer@.contains(value@) {
            rolled_known_unchanged(buffer@, value@);
        } else {
            rolled_new_appended(buffer@, value@);
        }
    }
    if !buffer.contains(&value) {
        let ghost before = buffer@;
        let ghost v = value@;
        let mut ids: VecDeque<TransactionIdWs> = VecDeque::new();
        std::mem::swap(&mut ids, &mut buffer.ids);
        assert(ids@.map_values(|t: TransactionIdWs| t@) == before);
        if ids.len() == MAX_SIZE {
            ids.pop_front();
        }
        let ghost mid = ids@;
        ids.push_back(value);
        proof {
            rolled_keeps_well_formed(before, v);
            let rolled_ids = ids@.map_values(|t: TransactionIdWs| t@);
            if before.len() >= MAX_SIZE {
                assert(rolled_ids =~= before.drop_first().push(v));
            } else {
                assert(rolled_ids =~= before.push(v));
            }
        }
        buffer.ids = ids;
        Some(())
    } else {
        None
    }
}

} // verus!
