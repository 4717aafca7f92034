//! The decisions the log watcher takes for each log line it tails: which key
//! it indexes, which journey the transaction belongs to, and whether the
//! transaction is new and must be announced.

use crate::logs::{is_platform, platform_lines, GenericLog, Logs, NodeOutcome};
use crate::transaction::{add_to_rolling_buffer, rolled, RollingBuffer, TransactionIdWs};
use vstd::prelude::*;
use vstd::utf8::{
    decode_utf8, encode_utf8, encode_utf8_decode_utf8, is_ascii_chars, is_ascii_chars_encode_utf8,
    is_char_boundary, is_char_boundary_iff_not_is_continuation_byte,
    is_char_boundary_start_end_of_seq,
};

verus! {

broadcast use vstd::utf8::encode_utf8_valid_utf8;

/// How many bytes of a logged transaction id make the transaction's key.
pub const KEY_BYTES: usize = 36;

/// The UTF-8 bytes of a character sequence.
pub open spec fn utf8(s: Seq<char>) -> Seq<u8> {
    encode_utf8(s)
}

/// Whether the first `KEY_BYTES` bytes of `id` end on a character boundary
/// (so that `id` has at least that many bytes).
pub open spec fn has_key(id: Seq<char>) -> bool {
    is_char_boundary(utf8(id), KEY_BYTES as int)
}

/// Whether `key` is made of the first `KEY_BYTES` bytes of `id`.
pub open spec fn is_key_of(key: Seq<char>, id: Seq<char>) -> bool {
    utf8(key) == utf8(id).subrange(0, KEY_BYTES as int)
}

/// The key of a transaction: the first `KEY_BYTES` bytes of its logged id.
pub fn transaction_key(id: &str) -> (r: String)
    requires
        has_key(id@),
    ensures
        is_key_of(r@, id@),
{
    let (head, _) = id.split_at(KEY_BYTES);
    head.to_owned()
}

/// A key is exactly `KEY_BYTES` bytes long.
pub proof fn key_length(key: Seq<char>, id: Seq<char>)
    requires
        has_key(id),
        is_key_of(key, id),
    ensures
        utf8(key).len() == KEY_BYTES,
{
    assert(utf8(id).len() >= KEY_BYTES);
}

/// A transaction id has one key only.
pub proof fn key_is_unique(k1: Seq<char>, k2: Seq<char>, id: Seq<char>)
    requires
        is_key_of(k1, id),
        is_key_of(k2, id),
    ensures
        k1 == k2,
{
    encode_utf8_decode_utf8(k1);
    encode_utf8_decode_utf8(k2);
}

/// The key of an ASCII transaction id of at least `KEY_BYTES` characters is
/// made of its first `KEY_BYTES` characters.
pub proof fn ascii_key(id: Seq<char>)
    requires
        is_ascii_chars(id),
        id.len() >= KEY_BYTES,
    ensures
        has_key(id),
        is_key_of(id.take(KEY_BYTES as int), id),
{
    let bytes = utf8(id);
    is_ascii_chars_encode_utf8(id);
    if id.len() == KEY_BYTES {
        is_char_boundary_start_end_of_seq(bytes);
    } else {
        is_char_boundary_iff_not_is_continuation_byte(bytes, KEY_BYTES as int);
        assert(id[KEY_BYTES as int] as u8 == bytes[KEY_BYTES as int]);
    }
    let head = id.take(KEY_BYTES as int);
    assert(is_ascii_chars(head)) by {
        assert forall|i: int| 0 <= i < head.len() implies '\0' <= #[trigger] head[i] <= '\u{7f}' by {
            assert(head[i] == id[i]);
        }
    }
    is_ascii_chars_encode_utf8(head);
    assert(utf8(head) =~= bytes.subrange(0, KEY_BYTES as int)) by {
        assert forall|i: int| 0 <= i < KEY_BYTES implies #[trigger] utf8(head)[i] == bytes[i] by {
            assert(head[i] == id[i]);
        }
    }
}

/// The first tree name found in a node trail, in the trail's order.
pub open spec fn first_tree_name(s: Seq<NodeOutcome>) -> Option<Seq<char>>
    decreases s.len(),
{
    if s.len() == 0 {
        None
    } else {
        match s[0].info.tree_name {
            Some(name) => Some(name@),
            None => first_tree_name(s.drop_first()),
        }
    }
}

/// The journey of a transaction: the first tree name in its node trail.
pub open spec fn journey_of(entries: Option<Vec<NodeOutcome>>) -> Option<Seq<char>> {
    match entries {
        Some(v) => first_tree_name(v@),
        None => None,
    }
}

/// An optional string as an optional character sequence.
pub open spec fn opt_view(s: Option<String>) -> Option<Seq<char>> {
    match s {
        Some(t) => Some(t@),
        None => None,
    }
}

/// The journey of a transaction: the first tree name in its node trail.
pub fn journey_name(entries: &Option<Vec<NodeOutcome>>) -> (r: Option<String>)
    ensures
        opt_view(r) == journey_of(*entries),
{
    match entries {
        None => None,
        Some(v) => {
            let n: usize = v.len();
            let mut i: usize = 0;
            assert(v@.skip(0) =~= v@);
            while i < n
                invariant
                    n == v@.len(),
                    i <= n,
                    journey_of(*entries) == first_tree_name(v@),
                    first_tree_name(v@) == first_tree_name(v@.skip(i as int)),
                decreases n - i,
            {
                let ghost rest = v@.skip(i as int);
                assert(rest[0] == v@[i as int]);
                match &v[i].info.tree_name {
                    Some(name) => {
                        assert(rest.len() > 0 && rest[0].info.tree_name == Some(*name));
                        let r = name.clone();
                        assert(first_tree_name(rest) == Some(r@));
                        return Some(r);
                    },
                    None => {},
                }
                assert(rest.drop_first() =~= v@.skip(i + 1));
                i += 1;
            }
            assert(v@.skip(n as int) =~= Seq::<NodeOutcome>::empty());
            None
        },
    }
}

/// What the watcher keeps of a platform log line: the transaction's key,
/// which it indexes, and its journey, when the node trail names one.
pub struct IndexEntry {
    pub key: String,
    pub journey: Option<String>,
}

/// Whether the watcher can take a key from `log` (always, for a line that is
/// not a platform log line).
pub open spec fn keyed(log: GenericLog) -> bool {
    match log {
        GenericLog::ResultingLog(t) => has_key(t.payload.transaction_id@),
        GenericLog::Other(_) => true,
    }
}

/// What the watcher keeps of a log line: nothing for a line that is not a
/// platform log line; otherwise the transaction's key and journey.
pub fn plan_log(log: &GenericLog) -> (r: Option<IndexEntry>)
    requires
        keyed(*log),
    ensures
        match *log {
            GenericLog::ResultingLog(t) => r matches Some(e) && is_key_of(
                e.key@,
                t.payload.transaction_id@,
            ) && opt_view(e.journey) == journey_of(t.payload.entries),
            GenericLog::Other(_) => r is None,
        },
{
    match log {
        GenericLog::ResultingLog(t) => {
            let key = transaction_key(t.payload.transaction_id.as_str());
            let journey = journey_name(&t.payload.entries);
            Some(IndexEntry { key, journey })
        },
        GenericLog::Other(_) => None,
    }
}

/// Records an indexed transaction in the rolling list when it has a journey,
/// and hands it back when it was not there yet, so that it is announced.
/// Without a journey the list is left as it is and nothing is announced.
pub fn register_entry(buffer: &mut RollingBuffer, entry: IndexEntry) -> (r: Option<TransactionIdWs>)
    ensures
        final(buffer).well_formed(),
        match entry.journey {
            Some(j) => {
                &&& final(buffer)@ == rolled(old(buffer)@, (entry.key@, j@))
                &&& r is Some <==> !old(buffer)@.contains((entry.key@, j@))
                &&& r matches Some(t) ==> t@ == (entry.key@, j@)
            },
            None => final(buffer)@ == old(buffer)@ && r is None,
        },
{
    proof {
        use_type_invariant(&*buffer);
    }
    let IndexEntry { key, journey } = entry;
    let is_some = journey.is_some();
    let journey_text = match journey {
        Some(j) => j,
        None => String::new(),
    };
    let transaction_id = TransactionIdWs::from_tuple((key, journey_text));
    let is_new = if is_some {
        add_to_rolling_buffer(buffer, transaction_id.clone())
    } else {
        None
    };
    if is_new.is_some() {
        Some(transaction_id)
    } else {
        None
    }
}

/// One step of the platform-line filter: the platform lines of `s` are those
/// of its first `s.len() - 1` lines, then its last line if that is one.
pub proof fn platform_lines_step(s: Seq<GenericLog>)
    requires
        s.len() > 0,
    ensures
        platform_lines(s) == if is_platform(s.last()) {
            platform_lines(s.drop_last()).push(s.last())
        } else {
            platform_lines(s.drop_last())
        },
{
    reveal(Seq::filter);
}

/// Whether `e` is what the watcher keeps of the platform line `log`.
pub open spec fn entry_of(e: IndexEntry, log: GenericLog) -> bool {
    match log {
        GenericLog::ResultingLog(t) => is_key_of(e.key@, t.payload.transaction_id@) && opt_view(
            e.journey,
        ) == journey_of(t.payload.entries),
        GenericLog::Other(_) => false,
    }
}

/// What the watcher does with one page of the tail: the entries of its
/// platform lines, in the page's order, up to the first line whose id has no
/// key; whether there is such a line; and the cookie for the next request.
pub struct WatchPlan {
    pub entries: Vec<IndexEntry>,
    pub unkeyed: bool,
    pub next_cookie: Option<String>,
}

/// A line has a key exactly when it is not a platform line, or when byte
/// `KEY_BYTES` of its transaction id's UTF-8 encoding is a character
/// boundary (an id of exactly that many bytes included).
pub proof fn keyed_is_boundary(log: GenericLog)
    ensures
        keyed(log) <==> (log matches GenericLog::ResultingLog(t) ==> is_char_boundary(
            encode_utf8(t.payload.transaction_id@),
            KEY_BYTES as int,
        )),
{
}

/// A platform line whose transaction id is exactly `KEY_BYTES` bytes long
/// has a key, and that key is the whole id.
pub proof fn exact_length_id_is_its_key(log: GenericLog)
    requires
        log matches GenericLog::ResultingLog(t) && encode_utf8(t.payload.transaction_id@).len()
            == KEY_BYTES,
    ensures
        keyed(log),
        log matches GenericLog::ResultingLog(t) && is_key_of(
            t.payload.transaction_id@,
            t.payload.transaction_id@,
        ),
{
    if let GenericLog::ResultingLog(t) = log {
        let bytes = encode_utf8(t.payload.transaction_id@);
        is_char_boundary_start_end_of_seq(bytes);
        assert(bytes.subrange(0, KEY_BYTES as int) =~= bytes);
    }
}

/// Whether the platform line `log` has a key.
pub fn line_keyed(log: &GenericLog) -> (r: bool)
    ensures
        r == keyed(*log),
        r == (log matches GenericLog::ResultingLog(t) ==> is_char_boundary(
            encode_utf8(t.payload.transaction_id@),
            KEY_BYTES as int,
        )),
{
    match log {
        GenericLog::ResultingLog(t) => t.payload.transaction_id.as_str().is_char_boundary(KEY_BYTES),
        GenericLog::Other(_) => true,
    }
}

/// Plans a page of the tail: one entry per platform line, in order, stopping
/// before the first platform line whose id has no key (and saying so), and
/// the page's cookie to ask for the next page with.
pub fn plan_page(page: &Logs) -> (r: WatchPlan)
    ensures
        ({
            let p = platform_lines(page.result@);
            let m = r.entries@.len();
            &&& m <= p.len()
            &&& forall|i: int|
                0 <= i < m ==> keyed(#[trigger] p[i]) && entry_of(r.entries@[i], p[i])
            &&& r.unkeyed <==> m < p.len()
            &&& m < p.len() ==> !keyed(p[m as int])
            &&& (forall|i: int|
                0 <= i < p.len() ==> (#[trigger] p[i] matches GenericLog::ResultingLog(t)
                    ==> is_char_boundary(encode_utf8(t.payload.transaction_id@), KEY_BYTES as int)))
                ==> !r.unkeyed && m == p.len()
        }),
        opt_view(r.next_cookie) == opt_view(page.paged_result_cooke),
{
    let ghost lines = page.result@;
    let mut entries: Vec<IndexEntry> = Vec::new();
    let n: usize = page.result.len();
    let mut i: usize = 0;
    let mut unkeyed = false;
    proof {
        reveal(Seq::filter);
    }
    assert(lines.take(0) =~= Seq::<GenericLog>::empty());
    while i < n
        invariant_except_break
            !unkeyed,
            entries@.len() == platform_lines(lines.take(i as int)).len(),
        invariant
            n == lines.len(),
            lines == page.result@,
            i <= n,
            entries@.len() <= platform_lines(lines.take(i as int)).len(),
            forall|k: int|
                0 <= k < entries@.len() ==> keyed(#[trigger] platform_lines(lines.take(i as int))[k])
                    && entry_of(entries@[k], platform_lines(lines.take(i as int))[k]),
        ensures
            i <= n,
            unkeyed ==> {
                &&& i < n
                &&& is_platform(lines[i as int])
                &&& !keyed(lines[i as int])
                &&& entries@.len() == platform_lines(lines.take(i as int)).len()
            },
            !unkeyed ==> i == n && entries@.len() == platform_lines(lines.take(i as int)).len(),
        decreases n - i,
    {
        let ghost before = lines.take(i as int);
        let ghost after = lines.take(i + 1);
        assert(after.drop_last() =~= before);
        assert(after.last() == lines[i as int]);
        proof {
            platform_lines_step(after);
        }
        if !line_keyed(&page.result[i]) {
            unkeyed = true;
            break;
        }
        let planned = plan_log(&page.result[i]);
        match planned {
            Some(e) => {
                entries.push(e);
            },
            None => {},
        }
        i += 1;
    }
    proof {
        let p = platform_lines(lines);
        if unkeyed {
            // The platform lines of the page start with those of its first
            // `i` lines, then the unkeyed line.
            let head = lines.take(i as int);
            let tail = lines.skip(i as int);
            assert(lines =~= head + tail);
            vstd::seq_lib::lemma_seq_skip_index(lines, i as int, 0);
            assert(tail =~= tail.take(1) + tail.skip(1));
            assert(tail.take(1) =~= seq![lines[i as int]]);
            assert(platform_lines(tail.take(1)) =~= seq![lines[i as int]]) by {
                platform_lines_step(tail.take(1));
                assert(tail.take(1).drop_last() =~= Seq::<GenericLog>::empty());
            }
            Seq::filter_distributes_over_add(head, tail, |g: GenericLog| is_platform(g));
            Seq::filter_distributes_over_add(tail.take(1), tail.skip(1), |g: GenericLog| is_platform(g));
            assert(p =~= platform_lines(head) + (seq![lines[i as int]] + platform_lines(tail.skip(1))));
            assert(p[entries@.len() as int] == lines[i as int]);
            assert forall|k: int| 0 <= k < entries@.len() implies p[k] == platform_lines(head)[k] by {}
        } else {
            assert(lines.take(n as int) =~= lines);
        }
    }
    let next_cookie = match &page.paged_result_cooke {
        Some(c) => Some(c.clone()),
        None => None,
    };
    WatchPlan { entries, unkeyed, next_cookie }
}

/// An entry as (key, journey).
pub open spec fn entry_view(e: IndexEntry) -> (Seq<char>, Option<Seq<char>>) {
    (e.key@, opt_view(e.journey))
}

/// A list of entries as (key, journey) pairs.
pub open spec fn entries_view(es: Seq<IndexEntry>) -> Seq<(Seq<char>, Option<Seq<char>>)> {
    Seq::new(es.len(), |i: int| entry_view(es[i]))
}

/// The rolling list after an entry was registered: offered when it names a
/// journey, unchanged otherwise.
pub open spec fn registered(s: Seq<(Seq<char>, Seq<char>)>, e: (Seq<char>, Option<Seq<char>>)) -> Seq<
    (Seq<char>, Seq<char>),
> {
    match e.1 {
        Some(j) => rolled(s, (e.0, j)),
        None => s,
    }
}

/// The rolling list after the entries were registered one after the other.
pub open spec fn registered_all(
    s: Seq<(Seq<char>, Seq<char>)>,
    es: Seq<(Seq<char>, Option<Seq<char>>)>,
) -> Seq<(Seq<char>, Seq<char>)>
    decreases es.len(),
{
    if es.len() == 0 {
        s
    } else {
        registered(registered_all(s, es.drop_last()), es.last())
    }
}

/// The transactions announced while the entries are registered one after the
/// other: those that name a journey and were not in the list when their turn
/// came, in order.
pub open spec fn announced(
    s: Seq<(Seq<char>, Seq<char>)>,
    es: Seq<(Seq<char>, Option<Seq<char>>)>,
) -> Seq<(Seq<char>, Seq<char>)>
    decreases es.len(),
{
    if es.len() == 0 {
        Seq::empty()
    } else {
        let rest = announced(s, es.drop_last());
        let e = es.last();
        match e.1 {
            Some(j) => if registered_all(s, es.drop_last()).contains((e.0, j)) {
                rest
            } else {
                rest.push((e.0, j))
            },
            None => rest,
        }
    }
}

/// Registers the first `count` entries (those that were indexed), in order,
/// and gives the transactions to announce, in order.
pub fn register_page(buffer: &mut RollingBuffer, entries: &Vec<IndexEntry>, count: usize) -> (r: Vec<
    TransactionIdWs,
>)
    requires
        count <= entries@.len(),
    ensures
        final(buffer)@ == registered_all(old(buffer)@, entries_view(entries@.take(count as int))),
        r@.len() == announced(old(buffer)@, entries_view(entries@.take(count as int))).len(),
        forall|k: int|
            0 <= k < r@.len() ==> #[trigger] r@[k]@ == announced(
                old(buffer)@,
                entries_view(entries@.take(count as int)),
            )[k],
{
    let ghost start = buffer@;
    let ghost all = entries_view(entries@);
    let mut out: Vec<TransactionIdWs> = Vec::new();
    let mut i: usize = 0;
    assert(all.take(0) =~= Seq::<(Seq<char>, Option<Seq<char>>)>::empty());
    while i < count
        invariant
            count <= entries@.len(),
            all == entries_view(entries@),
            i <= count,
            buffer@ == registered_all(start, all.take(i as int)),
            out@.len() == announced(start, all.take(i as int)).len(),
            forall|k: int|
                0 <= k < out@.len() ==> #[trigger] out@[k]@ == announced(
                    start,
                    all.take(i as int),
                )[k],
        decreases count - i,
    {
        let ghost prefix = all.take(i as int);
        let ghost next = all.take(i + 1);
        assert(next.drop_last() =~= prefix);
        assert(next.last() == all[i as int]);
        let journey = match &entries[i].journey {
            Some(j) => Some(j.clone()),
            None => None,
        };
        let entry = IndexEntry { key: entries[i].key.clone(), journey };
        assert(entry_view(entry) == all[i as int]);
        let ghost out0 = out@;
        match register_entry(buffer, entry) {
            Some(t) => {
                out.push(t);
                assert forall|k: int| 0 <= k < out@.len() implies #[trigger] out@[k]@ == announced(
                    start,
                    next,
                )[k] by {
                    if k < out0.len() {
                        assert(out@[k] == out0[k]);
                    }
                }
            },
            None => {
                assert(out@ == out0);
            },
        }
        i += 1;
    }
    assert(entries_view(entries@.take(count as int)) =~= all.take(count as int));
    out
}

} // verus!
