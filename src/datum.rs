use vstd::prelude::*;

verus! {

/// Mathematical model of a JSON value.
pub enum Json {
    Null,
    Bool(bool),
    Number(int),
    /// A number that is not an integer, by the text that denotes it.
    Decimal(Seq<char>),
    Str(Seq<char>),
    Array(Seq<Json>),
    Object(Seq<(Seq<char>, Json)>),
}

/// A JSON value as the driver holds it.
///
/// Numbers that are not integers keep the JSON text that denotes them
/// (`Decimal`); that text is written out as it stands.
#[derive(Debug)]
pub enum Datum {
    Null,
    Bool(bool),
    Number(i64),
    Decimal(String),
    Str(String),
    Array(Vec<Datum>),
    Object(Vec<(String, Datum)>),
}

/// The lower-case hex digit of `d`, below 16.
pub open spec fn hex_digit(d: u32) -> char {
    "0123456789abcdef"@[d as int]
}

/// How one character is written inside a JSON string literal: `"` and `\`
/// after a backslash; backspace, tab, line feed, form feed and carriage return
/// as `\b \t \n \f \r`; any other character below U+0020 as `\u00` and two
/// lower-case hex digits; every other character as it is.
pub open spec fn escape_char(c: char) -> Seq<char> {
    if c == '"' {
        seq!['\\', '"']
    } else if c == '\\' {
        seq!['\\', '\\']
    } else if c == '\u{8}' {
        seq!['\\', 'b']
    } else if c == '\t' {
        seq!['\\', 't']
    } else if c == '\n' {
        seq!['\\', 'n']
    } else if c == '\u{c}' {
        seq!['\\', 'f']
    } else if c == '\r' {
        seq!['\\', 'r']
    } else if (c as u32) < 0x20 {
        seq!['\\', 'u', '0', '0'] + seq![hex_digit((c as u32) / 16), hex_digit((c as u32) % 16)]
    } else {
        seq![c]
    }
}

/// The characters of `s`, each written as `escape_char` says.
pub open spec fn escape_chars(s: Seq<char>) -> Seq<char>
    decreases s.len(),
{
    if s.len() == 0 {
        Seq::empty()
    } else {
        escape_chars(s.subrange(0, s.len() - 1)) + escape_char(s[s.len() - 1])
    }
}

/// The JSON string literal that denotes `s`: its escaped characters
/// between double quotes.
#[verifier::opaque]
pub open spec fn json_quote(s: Seq<char>) -> Seq<char> {
    seq!['"'] + escape_chars(s) + seq!['"']
}

/// Whether `c` is written as itself inside a JSON string literal.
pub open spec fn plain_char(c: char) -> bool {
    c != '"' && c != '\\' && (c as u32) >= 0x20
}

proof fn lemma_escape_plain(s: Seq<char>)
    requires
        forall|i: int| 0 <= i < s.len() ==> plain_char(#[trigger] s[i]),
    ensures
        escape_chars(s) == s,
    decreases s.len(),
{
    if s.len() > 0 {
        let front = s.subrange(0, s.len() - 1);
        assert forall|i: int| 0 <= i < front.len() implies plain_char(#[trigger] front[i]) by {
            assert(front[i] == s[i]);
        }
        lemma_escape_plain(front);
        assert(plain_char(s[s.len() - 1]));
        assert(front + seq![s[s.len() - 1]] =~= s);
    }
}

/// A string with nothing to escape is quoted as itself between double quotes.
pub proof fn lemma_quote_plain(s: Seq<char>)
    requires
        forall|i: int| 0 <= i < s.len() ==> plain_char(#[trigger] s[i]),
    ensures
        json_quote(s) == seq!['"'] + s + seq!['"'],
{
    reveal(json_quote);
    lemma_escape_plain(s);
}

/// Relies on `serde_json::to_string` applied to a string slice: it writes the
/// characters of `s` between double quotes, escaped by serde_json's table
/// (see `escape_char`); writing into memory does not fail.
#[verifier::external_body]
pub(crate) fn quote(s: &str) -> (q: String)
    ensures
        q@ == json_quote(s@),
{
    serde_json::to_string(s).unwrap_or_default()
}

pub open spec fn datum_model(d: Datum) -> Json
    decreases d,
{
    match d {
        Datum::Null => Json::Null,
        Datum::Bool(b) => Json::Bool(b),
        Datum::Number(n) => Json::Number(n as int),
        Datum::Decimal(t) => Json::Decimal(t@),
        Datum::Str(s) => Json::Str(s@),
        Datum::Array(v) => Json::Array(datum_models(v@)),
        Datum::Object(v) => Json::Object(member_models(v@)),
    }
}

pub open spec fn datum_models(s: Seq<Datum>) -> Seq<Json>
    decreases s,
{
    if s.len() == 0 {
        Seq::empty()
    } else {
        datum_models(s.subrange(0, s.len() - 1)).push(datum_model(s[s.len() - 1]))
    }
}

pub open spec fn member_models(s: Seq<(String, Datum)>) -> Seq<(Seq<char>, Json)>
    decreases s,
{
    if s.len() == 0 {
        Seq::empty()
    } else {
        member_models(s.subrange(0, s.len() - 1)).push(
            (s[s.len() - 1].0@, datum_model(s[s.len() - 1].1)),
        )
    }
}

impl View for Datum {
    type V = Json;

    open spec fn view(&self) -> Json {
        datum_model(*self)
    }
}

pub proof fn lemma_datum_models(s: Seq<Datum>)
    ensures
        datum_models(s).len() == s.len(),
        forall|i: int| 0 <= i < s.len() ==> #[trigger] datum_models(s)[i] == datum_model(s[i]),
    decreases s.len(),
{
    if s.len() > 0 {
        lemma_datum_models(s.subrange(0, s.len() - 1));
    }
}

pub proof fn lemma_member_models(s: Seq<(String, Datum)>)
    ensures
        member_models(s).len() == s.len(),
        forall|i: int|
            0 <= i < s.len() ==> #[trigger] member_models(s)[i] == (s[i].0@, datum_model(s[i].1)),
    decreases s.len(),
{
    if s.len() > 0 {
        lemma_member_models(s.subrange(0, s.len() - 1));
    }
}

/// Decimal text of one digit.
pub open spec fn digit_text(d: nat) -> Seq<char> {
    if d == 0 {
        "0"@
    } else if d == 1 {
        "1"@
    } else if d == 2 {
        "2"@
    } else if d == 3 {
        "3"@
    } else if d == 4 {
        "4"@
    } else if d == 5 {
        "5"@
    } else if d == 6 {
        "6"@
    } else if d == 7 {
        "7"@
    } else if d == 8 {
        "8"@
    } else {
        "9"@
    }
}

/// Decimal text of a natural number, without leading zeros.
pub open spec fn nat_text(n: nat) -> Seq<char>
    decreases n,
{
    if n < 10 {
        digit_text(n)
    } else {
        nat_text(n / 10) + digit_text(n % 10)
    }
}

/// Decimal text of an integer, with a leading `-` when it is negative.
pub open spec fn int_text(n: int) -> Seq<char> {
    if n < 0 {
        "-"@ + nat_text((-n) as nat)
    } else {
        nat_text(n as nat)
    }
}

/// How a JSON value is written inside a term tree: as JSON, except that an
/// array becomes a `MAKE_ARRAY` term (`[2,[...]]`), so that the server does not
/// read it as a term of its own.
pub open spec fn json_wire(j: Json) -> Seq<char>
    decreases j,
{
    match j {
        Json::Null => "null"@,
        Json::Bool(b) => if b {
            "true"@
        } else {
            "false"@
        },
        Json::Number(n) => int_text(n),
        Json::Decimal(t) => t,
        Json::Str(s) => json_quote(s),
        Json::Array(items) => "[2,["@ + json_items_wire(items) + "]]"@,
        Json::Object(members) => "{"@ + json_members_wire(members) + "}"@,
    }
}

/// The comma-separated wire text of a list of JSON values.
pub open spec fn json_items_wire(s: Seq<Json>) -> Seq<char>
    decreases s,
{
    if s.len() == 0 {
        Seq::empty()
    } else if s.len() == 1 {
        json_wire(s[0])
    } else {
        json_items_wire(s.subrange(0, s.len() - 1)) + ","@ + json_wire(s[s.len() - 1])
    }
}

/// The comma-separated `"key":value` text of the members of an object.
pub open spec fn json_members_wire(s: Seq<(Seq<char>, Json)>) -> Seq<char>
    decreases s,
{
    if s.len() == 0 {
        Seq::empty()
    } else if s.len() == 1 {
        json_quote(s[0].0) + ":"@ + json_wire(s[0].1)
    } else {
        json_members_wire(s.subrange(0, s.len() - 1)) + ","@ + json_quote(s[s.len() - 1].0)
            + ":"@ + json_wire(s[s.len() - 1].1)
    }
}

/// A `String` holding the characters of `s`.
pub(crate) fn owned(s: &str) -> (res: String)
    ensures
        res@ == s@,
{
    let mut res = String::new();
    res.append(s);
    proof {
        assert(res@ =~= s@);
    }
    res
}

fn digit_str(d: u64) -> (s: &'static str)
    requires
        d < 10,
    ensures
        s@ == digit_text(d as nat),
{
    if d == 0 {
        "0"
    } else if d == 1 {
        "1"
    } else if d == 2 {
        "2"
    } else if d == 3 {
        "3"
    } else if d == 4 {
        "4"
    } else if d == 5 {
        "5"
    } else if d == 6 {
        "6"
    } else if d == 7 {
        "7"
    } else if d == 8 {
        "8"
    } else {
        "9"
    }
}

/// Appends the decimal text of `n`.
pub fn write_nat(out: &mut String, n: u64)
    ensures
        final(out)@ == old(out)@ + nat_text(n as nat),
    decreases n,
{
    if n < 10 {
        out.append(digit_str(n));
    } else {
        write_nat(out, n / 10);
        out.append(digit_str(n % 10));
        assert(final(out)@ =~= old(out)@ + nat_text(n as nat));
    }
}

/// Appends the decimal text of `n`.
pub fn write_int(out: &mut String, n: i64)
    ensures
        final(out)@ == old(out)@ + int_text(n as int),
{
    if n < 0 {
        let m: u64 = if n == i64::MIN {
            9223372036854775808u64
        } else {
            (-n) as u64
        };
        out.append("-");
        write_nat(out, m);
        assert(final(out)@ =~= old(out)@ + int_text(n as int));
    } else {
        write_nat(out, n as u64);
    }
}

impl Datum {
    /// Appends the wire text of this value (see `json_wire`).
    pub fn write_wire(&self, out: &mut String)
        ensures
            final(out)@ == old(out)@ + json_wire(self@),
        decreases self,
    {
        let ghost start = old(out)@;
        match self {
            Datum::Null => out.append("null"),
            Datum::Bool(b) => if *b {
                out.append("true")
            } else {
                out.append("false")
            },
            Datum::Number(n) => write_int(out, *n),
            Datum::Decimal(t) => out.append(t.as_str()),
            Datum::Str(s) => {
                let q = quote(s.as_str());
                out.append(q.as_str());
            },
            Datum::Array(items) => {
                let ghost models = datum_models(items@);
                proof {
                    lemma_datum_models(items@);
                }
                out.append("[2,[");
                let mut i: usize = 0;
                while i < items.len()
                    invariant
                        i <= items.len(),
                        *self == Datum::Array(*items),
                        models == datum_models(items@),
                        models.len() == items@.len(),
                        forall|k: int|
                            0 <= k < items@.len() ==> #[trigger] models[k] == datum_model(
                                items@[k],
                            ),
                        out@ == start + "[2,["@ + json_items_wire(models.subrange(0, i as int)),
                    decreases items.len() - i,
                {
                    if i > 0 {
                        out.append(",");
                    }
                    proof {
                        assert(decreases_to!(*self => self->Array_0));
                    }
                    items[i].write_wire(out);
                    proof {
                        let t = models.subrange(0, i + 1);
                        assert(t.subrange(0, t.len() - 1) =~= models.subrange(0, i as int));
                        assert(t[t.len() - 1] == datum_model(items@[i as int]));
                    }
                    i = i + 1;
                }
                out.append("]]");
                proof {
                    assert(models.subrange(0, items@.len() as int) =~= models);
                }
            },
            Datum::Object(members) => {
                let ghost models = member_models(members@);
                proof {
                    lemma_member_models(members@);
                }
                out.append("{");
                let mut i: usize = 0;
                while i < members.len()
                    invariant
                        i <= members.len(),
                        *self == Datum::Object(*members),
                        models == member_models(members@),
                        models.len() == members@.len(),
                        forall|k: int|
                            0 <= k < members@.len() ==> #[trigger] models[k] == (
                                members@[k].0@,
                                datum_model(members@[k].1),
                            ),
                        out@ == start + "{"@ + json_members_wire(models.subrange(0, i as int)),
                    decreases members.len() - i,
                {
                    if i > 0 {
                        out.append(",");
                    }
                    let q = quote(members[i].0.as_str());
                    out.append(q.as_str());
                    out.append(":");
                    proof {
                        assert(decreases_to!(*self => self->Object_0));
                        assert(decreases_to!(members@[i as int] => members@[i as int].1));
                    }
                    members[i].1.write_wire(out);
                    proof {
                        let t = models.subrange(0, i + 1);
                        assert(t.subrange(0, t.len() - 1) =~= models.subrange(0, i as int));
                        assert(t[t.len() - 1] == (members@[i as int].0@, datum_model(members@[i as int].1)));
                    }
                    i = i + 1;
                }
                out.append("}");
                proof {
                    assert(models.subrange(0, members@.len() as int) =~= models);
                }
            },
        }
    }
}

} // verus!
