use vstd::prelude::*;

use crate::value::{Field, FieldView};

verus! {

/// `name` wrapped in double quotes.
pub open spec fn spec_quoted(name: Seq<char>) -> Seq<char> {
    "\""@ + name + "\""@
}

/// The character for the decimal digit `d`.
pub open spec fn spec_digit(d: nat) -> char {
    if d == 0 {
        '0'
    } else if d == 1 {
        '1'
    } else if d == 2 {
        '2'
    } else if d == 3 {
        '3'
    } else if d == 4 {
        '4'
    } else if d == 5 {
        '5'
    } else if d == 6 {
        '6'
    } else if d == 7 {
        '7'
    } else if d == 8 {
        '8'
    } else {
        '9'
    }
}

/// The decimal digit characters of `n`, most significant first, with no
/// leading zeros (except for `n == 0` itself).
pub open spec fn spec_decimal(n: nat) -> Seq<char>
    decreases n,
{
    if n < 10 {
        seq![spec_digit(n)]
    } else {
        spec_decimal(n / 10) + seq![spec_digit(n % 10)]
    }
}

/// The one-character string for the decimal digit `d`.
fn digit_string(d: u64) -> (r: String)
    requires
        d < 10,
    ensures
        r@ == seq![spec_digit(d as nat)],
{
    let s: &str = if d == 0 {
        "0"
    } else if d == 1 {
        "1"
    } else if d == 2 {
        "2"
    } else if d == 3 {
        "3"
    } else if d == 4 {
        "4"
    } else if d == 5 {
        "5"
    } else if d == 6 {
        "6"
    } else if d == 7 {
        "7"
    } else if d == 8 {
        "8"
    } else {
        "9"
    };
    proof {
        reveal_strlit("0");
        reveal_strlit("1");
        reveal_strlit("2");
        reveal_strlit("3");
        reveal_strlit("4");
        reveal_strlit("5");
        reveal_strlit("6");
        reveal_strlit("7");
        reveal_strlit("8");
        reveal_strlit("9");
        assert(s@ =~= seq![spec_digit(d as nat)]);
    }
    String::from_str(s)
}

/// Renders `n` in decimal.
fn decimal_string(n: u64) -> (r: String)
    ensures
        r@ == spec_decimal(n as nat),
    decreases n,
{
    if n < 10 {
        digit_string(n)
    } else {
        let mut s = decimal_string(n / 10);
        let d = digit_string(n % 10);
        s.append(d.as_str());
        s
    }
}

/// The items joined by `", "`: `"a, b, c"`.
pub open spec fn spec_comma_join(items: Seq<Seq<char>>) -> Seq<char>
    decreases items.len(),
{
    if items.len() == 0 {
        Seq::empty()
    } else if items.len() == 1 {
        items[0]
    } else {
        spec_comma_join(items.drop_last()) + ", "@ + items.last()
    }
}

/// Extending the joined prefix by one item appends a separator (after the
/// first item) and the item itself.
proof fn lemma_comma_join_snoc(items: Seq<Seq<char>>, i: int)
    requires
        0 <= i < items.len(),
    ensures
        i == 0 ==> spec_comma_join(items.take(1)) == items[0],
        i > 0 ==> spec_comma_join(items.take(i + 1)) == spec_comma_join(items.take(i)) + ", "@
            + items[i],
{
    let t = items.take(i + 1);
    assert(t.len() == i + 1);
    if i == 0 {
        assert(t[0] == items[0]);
    } else {
        assert(t.drop_last() =~= items.take(i));
        assert(t.last() == items[i]);
    }
}

/// The comma-joined list of the field names, each double-quoted:
/// `"\"a\", \"b\""`.
pub open spec fn spec_comma_names(fields: Seq<FieldView>) -> Seq<char> {
    spec_comma_join(fields.map_values(|f: FieldView| spec_quoted(f.name)))
}

/// The positional placeholder `$i`.
pub open spec fn spec_placeholder(i: nat) -> Seq<char> {
    "$"@ + spec_decimal(i)
}

/// The comma-joined placeholder list `$1, $2, ..., $n`.
pub open spec fn spec_params(n: nat) -> Seq<char> {
    spec_comma_join(Seq::new(n, |i: int| spec_placeholder((i + 1) as nat)))
}

/// The comma-joined list of returning-column names, each double-quoted.
pub open spec fn spec_returnings(names: Seq<Seq<char>>) -> Seq<char> {
    spec_comma_join(names.map_values(|n: Seq<char>| spec_quoted(n)))
}

/// Comma-joined double-quoted field names, in the order given.
pub fn sql_comma_names(fields: &Vec<Field>) -> (r: String)
    ensures
        r@ == spec_comma_names(fields.deep_view()),
{
    let ghost items = fields.deep_view().map_values(|f: FieldView| spec_quoted(f.name));
    let mut out = String::new();
    let mut i: usize = 0;
    while i < fields.len()
        invariant
            i <= fields.len(),
            items == fields.deep_view().map_values(|f: FieldView| spec_quoted(f.name)),
            items.len() == fields.len(),
            out@ == spec_comma_join(items.take(i as int)),
        decreases fields.len() - i,
    {
        if i > 0 {
            out.append(", ");
        }
        out.append("\"");
        out.append(fields[i].0.as_str());
        out.append("\"");
        proof {
            lemma_comma_join_snoc(items, i as int);
            assert(items[i as int] == spec_quoted(fields.deep_view()[i as int].name));
            assert(out@ =~= spec_comma_join(items.take(i as int + 1)));
        }
        i += 1;
    }
    proof {
        assert(items.take(items.len() as int) =~= items);
    }
    out
}

/// Comma-joined positional placeholders `$1, $2, ...`, one per field, in
/// field order.
pub fn sql_comma_params(fields: &Vec<Field>) -> (r: String)
    ensures
        r@ == spec_params(fields@.len()),
{
    let ghost items = Seq::new(fields@.len(), |i: int| spec_placeholder((i + 1) as nat));
    let mut out = String::new();
    let mut i: usize = 0;
    while i < fields.len()
        invariant
            i <= fields.len(),
            items == Seq::new(fields@.len(), |j: int| spec_placeholder((j + 1) as nat)),
            items.len() == fields.len(),
            out@ == spec_comma_join(items.take(i as int)),
        decreases fields.len() - i,
    {
        if i > 0 {
            out.append(", ");
        }
        out.append("$");
        let num = decimal_string((i as u64) + 1);
        out.append(num.as_str());
        proof {
            lemma_comma_join_snoc(items, i as int);
            assert(items[i as int] == spec_placeholder((i + 1) as nat));
            assert(out@ =~= spec_comma_join(items.take(i as int + 1)));
        }
        i += 1;
    }
    proof {
        assert(items.take(items.len() as int) =~= items);
    }
    out
}

/// Comma-joined double-quoted returning-column names, in the order given.
pub fn sql_returnings(returnings: &Vec<String>) -> (r: String)
    ensures
        r@ == spec_returnings(returnings.deep_view()),
{
    let ghost items = returnings.deep_view().map_values(|n: Seq<char>| spec_quoted(n));
    let mut out = String::new();
    let mut i: usize = 0;
    while i < returnings.len()
        invariant
            i <= returnings.len(),
            items == returnings.deep_view().map_values(|n: Seq<char>| spec_quoted(n)),
            items.len() == returnings.len(),
            out@ == spec_comma_join(items.take(i as int)),
        decreases returnings.len() - i,
    {
        if i > 0 {
            out.append(", ");
        }
        out.append("\"");
        out.append(returnings[i].as_str());
        out.append("\"");
        proof {
            lemma_comma_join_snoc(items, i as int);
            assert(items[i as int] == spec_quoted(returnings.deep_view()[i as int]));
            assert(out@ =~= spec_comma_join(items.take(i as int + 1)));
        }
        i += 1;
    }
    proof {
        assert(items.take(items.len() as int) =~= items);
    }
    out
}

/// How many times the character `c` occurs in `s`.
pub open spec fn count_char(s: Seq<char>, c: char) -> nat
    decreases s.len(),
{
    if s.len() == 0 {
        0
    } else {
        count_char(s.drop_last(), c) + (if s.last() == c {
            1nat
        } else {
            0nat
        })
    }
}

/// Occurrence counts add up over concatenation.
pub proof fn lemma_count_char_add(a: Seq<char>, b: Seq<char>, c: char)
    ensures
        count_char(a + b, c) == count_char(a, c) + count_char(b, c),
    decreases b.len(),
{
    if b.len() == 0 {
        assert(a + b =~= a);
    } else {
        lemma_count_char_add(a, b.drop_last(), c);
        assert((a + b).drop_last() =~= a + b.drop_last());
        assert((a + b).last() == b.last());
    }
}

/// A sequence without `c` counts zero occurrences of it.
pub proof fn lemma_count_char_none(s: Seq<char>, c: char)
    requires
        forall|i: int| 0 <= i < s.len() ==> s[i] != c,
    ensures
        count_char(s, c) == 0,
    decreases s.len(),
{
    if s.len() > 0 {
        lemma_count_char_none(s.drop_last(), c);
    }
}

/// A decimal rendering never contains the placeholder marker `$`.
pub proof fn lemma_decimal_no_dollar(n: nat)
    ensures
        forall|i: int| 0 <= i < spec_decimal(n).len() ==> spec_decimal(n)[i] != '$',
    decreases n,
{
    if n < 10 {
        assert(spec_decimal(n)[0] == spec_digit(n));
    } else {
        lemma_decimal_no_dollar(n / 10);
        assert forall|i: int| 0 <= i < spec_decimal(n).len() implies spec_decimal(n)[i] != '$' by {
            if i < spec_decimal(n / 10).len() {
                assert(spec_decimal(n)[i] == spec_decimal(n / 10)[i]);
            } else {
                assert(spec_decimal(n)[i] == spec_digit(n % 10));
            }
        }
    }
}

/// Each positional placeholder `$i` contains the marker `$` exactly once.
pub proof fn lemma_placeholder_one_dollar(i: nat)
    ensures
        count_char(spec_placeholder(i), '$') == 1,
{
    reveal_strlit("$");
    assert("$"@.len() == 1);
    lemma_count_char_none("$"@.drop_last(), '$');
    assert(count_char("$"@, '$') == 1);
    lemma_decimal_no_dollar(i);
    lemma_count_char_none(spec_decimal(i), '$');
    lemma_count_char_add("$"@, spec_decimal(i), '$');
}

/// The item separator contains no placeholder marker.
proof fn lemma_separator_no_dollar()
    ensures
        count_char(", "@, '$') == 0,
{
    reveal_strlit(", ");
    lemma_count_char_none(", "@, '$');
}

/// The placeholder list `$1, ..., $n` contains the marker `$` exactly `n`
/// times: one placeholder per position.
pub proof fn lemma_params_dollar_count(n: nat)
    ensures
        count_char(spec_params(n), '$') == n,
    decreases n,
{
    let items = Seq::new(n, |i: int| spec_placeholder((i + 1) as nat));
    if n == 0 {
        assert(count_char(spec_params(n), '$') == 0);
    } else if n == 1 {
        assert(spec_comma_join(items) == items[0]);
        lemma_placeholder_one_dollar(1);
    } else {
        lemma_params_dollar_count((n - 1) as nat);
        let prev = Seq::new((n - 1) as nat, |i: int| spec_placeholder((i + 1) as nat));
        assert(items.drop_last() =~= prev);
        assert(spec_comma_join(items) == spec_comma_join(prev) + ", "@ + items.last());
        lemma_count_char_add(spec_comma_join(prev) + ", "@, items.last(), '$');
        lemma_count_char_add(spec_comma_join(prev), ", "@, '$');
        lemma_separator_no_dollar();
        assert(items.last() == spec_placeholder(n));
        lemma_placeholder_one_dollar(n);
    }
}

/// The returning list after an append-merge: the names are appended to the
/// existing list in the order given, creating the list (possibly empty but
/// present) if it was absent. Nothing is ever deduplicated or removed.
pub open spec fn spec_merge_returnings(
    returnings: Option<Seq<Seq<char>>>,
    names: Seq<Seq<char>>,
) -> Option<Seq<Seq<char>>> {
    match returnings {
        Some(list) => Some(list + names),
        None => Some(Seq::empty() + names),
    }
}

/// Append-merges `names` onto an optional returning list. The result is
/// always present, even when `names` is empty and no list existed before.
pub fn into_returnings(returnings: Option<Vec<String>>, names: &[&str]) -> (r: Option<Vec<String>>)
    ensures
        r.deep_view() == spec_merge_returnings(returnings.deep_view(), names.deep_view()),
{
    let ghost base: Seq<Seq<char>> = match returnings.deep_view() {
        Some(list) => list,
        None => Seq::empty(),
    };
    let mut list: Vec<String> = match returnings {
        Some(l) => l,
        None => Vec::new(),
    };
    let mut i: usize = 0;
    while i < names.len()
        invariant
            i <= names.len(),
            names.deep_view().len() == names@.len(),
            list.deep_view() == base + names.deep_view().take(i as int),
        decreases names.len() - i,
    {
        let ghost pre = list.deep_view();
        let name = String::from_str(names[i]);
        proof {
            assert(name.deep_view() == names.deep_view()[i as int]);
        }
        list.push(name);
        proof {
            assert(list.deep_view() =~= pre.push(names.deep_view()[i as int]));
            assert(pre.push(names.deep_view()[i as int]) =~= base + names.deep_view().take(
                i as int + 1,
            ));
        }
        i += 1;
    }
    proof {
        assert(names.deep_view().take(names.deep_view().len() as int) =~= names.deep_view());
        assert(base + names.deep_view() =~= match returnings.deep_view() {
            Some(list) => list + names.deep_view(),
            None => Seq::empty() + names.deep_view(),
        });
    }
    Some(list)
}

} // verus!
