use vstd::prelude::*;

use crate::datum::{datum_model, owned, lemma_member_models, member_models, Datum, Json};

verus! {

/// What one value of a changefeed stands for. The value itself is handed on
/// unchanged either way; this only tells the caller how to read it.
#[derive(Clone, Copy, Debug, PartialEq, Eq, Structural)]
pub enum FeedItem {
    /// `{"state": "initializing"}`: the initial values follow.
    Initializing,
    /// `{"state": "ready"}`: the changes follow.
    Ready,
    /// The server's buffer overflowed and dropped this many changes.
    Overflow(u64),
    /// Any other value: a change (or an initial value).
    Change,
}

/// The value of the first member of `ms` named `key`.
pub open spec fn lookup(ms: Seq<(Seq<char>, Json)>, key: Seq<char>) -> Option<Json>
    decreases ms.len(),
{
    if ms.len() == 0 {
        None
    } else {
        match lookup(ms.subrange(0, ms.len() - 1), key) {
            Some(v) => Some(v),
            None => if ms[ms.len() - 1].0 == key {
                Some(ms[ms.len() - 1].1)
            } else {
                None
            },
        }
    }
}

pub open spec fn is_digit(c: char) -> bool {
    '0' <= c && c <= '9'
}

/// The number that the decimal digits `s` denote.
pub open spec fn digits_value(s: Seq<char>) -> nat
    decreases s.len(),
{
    if s.len() == 0 {
        0
    } else {
        digits_value(s.subrange(0, s.len() - 1)) * 10 + ((s[s.len() - 1] as u32) - ('0' as u32)) as nat
    }
}

pub open spec fn overflow_prefix() -> Seq<char> {
    "Changefeed cache over array size limit, skipped "@
}

pub open spec fn overflow_suffix() -> Seq<char> {
    " elements."@
}

/// The count that an overflow notice states: `msg` is the prefix, one or
/// more decimal digits, and the suffix.
pub open spec fn overflow_count(msg: Seq<char>) -> Option<nat> {
    let p = overflow_prefix().len();
    let q = overflow_suffix().len();
    if msg.len() > p + q && msg.subrange(0, p as int) == overflow_prefix() && msg.subrange(
        msg.len() - q,
        msg.len() as int,
    ) == overflow_suffix() && (forall|i: int| p <= i < msg.len() - q ==> is_digit(#[trigger] msg[i])) {
        Some(digits_value(msg.subrange(p as int, msg.len() - q)))
    } else {
        None
    }
}

/// How a changefeed value is read (see `FeedItem`). A count too large for
/// a `u64` is not read as an overflow notice.
pub open spec fn feed_item(j: Json) -> FeedItem {
    match j {
        Json::Object(ms) => if lookup(ms, "state"@) == Some(Json::Str("initializing"@)) {
            FeedItem::Initializing
        } else if lookup(ms, "state"@) == Some(Json::Str("ready"@)) {
            FeedItem::Ready
        } else {
            match lookup(ms, "error"@) {
                Some(Json::Str(msg)) => match overflow_count(msg) {
                    Some(n) => if n <= u64::MAX {
                        FeedItem::Overflow(n as u64)
                    } else {
                        FeedItem::Change
                    },
                    None => FeedItem::Change,
                },
                _ => FeedItem::Change,
            }
        },
        _ => FeedItem::Change,
    }
}

/// The value of the first member of `ms` named `key`.
pub fn member<'a>(ms: &'a Vec<(String, Datum)>, key: &str) -> (res: Option<&'a Datum>)
    ensures
        match res {
            Some(d) => lookup(member_models(ms@), key@) == Some(d@),
            None => lookup(member_models(ms@), key@) is None,
        },
{
    let k = owned(key);
    let ghost mm = member_models(ms@);
    proof {
        lemma_member_models(ms@);
    }
    let mut i: usize = 0;
    while i < ms.len()
        invariant
            i <= ms.len(),
            k@ == key@,
            mm == member_models(ms@),
            mm.len() == ms@.len(),
            forall|j: int| 0 <= j < ms@.len() ==> #[trigger] mm[j] == (ms@[j].0@, datum_model(ms@[j].1)),
            lookup(mm.subrange(0, i as int), key@) is None,
        decreases ms.len() - i,
    {
        proof {
            let t = mm.subrange(0, i + 1);
            assert(t.subrange(0, t.len() - 1) =~= mm.subrange(0, i as int));
        }
        if ms[i].0 == k {
            proof {
                lemma_lookup_prefix(mm, key@, i + 1);
            }
            return Some(&ms[i].1);
        }
        i = i + 1;
    }
    proof {
        assert(mm.subrange(0, ms@.len() as int) =~= mm);
    }
    None
}

proof fn lemma_lookup_prefix(ms: Seq<(Seq<char>, Json)>, key: Seq<char>, n: int)
    requires
        0 <= n <= ms.len(),
        lookup(ms.subrange(0, n), key) is Some,
    ensures
        lookup(ms, key) == lookup(ms.subrange(0, n), key),
    decreases ms.len(),
{
    if n < ms.len() {
        let front = ms.subrange(0, ms.len() - 1);
        assert(front.subrange(0, n) =~= ms.subrange(0, n));
        lemma_lookup_prefix(front, key, n);
    } else {
        assert(ms.subrange(0, n) =~= ms);
    }
}

proof fn lemma_digits_prefix(s: Seq<char>, j: int)
    requires
        0 <= j <= s.len(),
        forall|i: int| 0 <= i < s.len() ==> is_digit(#[trigger] s[i]),
    ensures
        digits_value(s.subrange(0, j)) <= digits_value(s),
    decreases s.len(),
{
    if j < s.len() {
        let front = s.subrange(0, s.len() - 1);
        assert(front.subrange(0, j) =~= s.subrange(0, j));
        assert forall|i: int| 0 <= i < front.len() implies is_digit(#[trigger] front[i]) by {
            assert(front[i] == s[i]);
        }
        lemma_digits_prefix(front, j);
    } else {
        assert(s.subrange(0, j) =~= s);
    }
}

/// The count that an overflow notice states (see `overflow_count`), when it
/// fits in a `u64`.
pub fn skipped_count(msg: &str) -> (res: Option<u64>)
    ensures
        match overflow_count(msg@) {
            Some(n) => if n <= u64::MAX {
                res == Some(n as u64)
            } else {
                res is None
            },
            None => res is None,
        },
{
    let prefix = "Changefeed cache over array size limit, skipped ";
    let suffix = " elements.";
    let n = msg.unicode_len();
    let p = prefix.unicode_len();
    let q = suffix.unicode_len();
    if n <= p || n - p <= q {
        return None;
    }
    let head = owned(msg.substring_char(0, p));
    let tail = owned(msg.substring_char(n - q, n));
    if !(head == owned(prefix)) || !(tail == owned(suffix)) {
        return None;
    }
    let ghost digits = msg@.subrange(p as int, n - q);
    let mut v: u64 = 0;
    let mut i: usize = p;
    while i < n - q
        invariant
            n == msg@.len(),
            p == overflow_prefix().len(),
            q == overflow_suffix().len(),
            p <= i <= n - q,
            n > p + q,
            digits == msg@.subrange(p as int, n - q),
            forall|j: int| p <= j < i ==> is_digit(#[trigger] msg@[j]),
            v as nat == digits_value(msg@.subrange(p as int, i as int)),
        decreases n - q - i,
    {
        let c = msg.get_char(i);
        proof {
            let t = msg@.subrange(p as int, i + 1);
            assert(t.subrange(0, t.len() - 1) =~= msg@.subrange(p as int, i as int));
        }
        if !('0' <= c && c <= '9') {
            proof {
                assert(!is_digit(msg@[i as int]));
            }
            return None;
        }
        let d = (c as u32 - '0' as u32) as u64;
        let next = match v.checked_mul(10) {
            Some(m) => m.checked_add(d),
            None => None,
        };
        match next {
            Some(w) => {
                v = w;
            },
            None => {
                proof {
                    if overflow_count(msg@) is Some {
                        assert forall|j: int| 0 <= j < digits.len() implies is_digit(
                            #[trigger] digits[j],
                        ) by {
                            assert(digits[j] == msg@[p + j]);
                        }
                        lemma_digits_prefix(digits, i + 1 - p);
                        assert(digits.subrange(0, i + 1 - p) =~= msg@.subrange(p as int, i + 1));
                    }
                }
                return None;
            },
        }
        i = i + 1;
    }
    proof {
        assert(msg@.subrange(0, p as int) =~= head@);
    }
    Some(v)
}

/// How the changefeed value `d` is read (see `feed_item`).
pub fn classify(d: &Datum) -> (res: FeedItem)
    ensures
        res == feed_item(d@),
{
    match d {
        Datum::Object(ms) => {
            match member(ms, "state") {
                Some(Datum::Str(s)) => {
                    if *s == owned("initializing") {
                        return FeedItem::Initializing;
                    }
                    if *s == owned("ready") {
                        return FeedItem::Ready;
                    }
                },
                _ => {},
            }
            match member(ms, "error") {
                Some(Datum::Str(msg)) => match skipped_count(msg.as_str()) {
                    Some(n) => FeedItem::Overflow(n),
                    None => FeedItem::Change,
                },
                _ => FeedItem::Change,
            }
        },
        _ => FeedItem::Change,
    }
}

} // verus!
