//! The store text format: a collection of pets written as one JSON array of
//! objects with a fixed field order and no extra whitespace, together with
//! its parser. Both directions are verified against the same specification,
//! and writing then reading a valid collection is proved to give the
//! collection back.
//!
//! The format is canonical on purpose: the parser accepts exactly the text
//! the encoder writes — no extra whitespace, no reordered fields, and the
//! creation time as integer seconds. Since the store is rewritten wholesale
//! on every mutation, the file always holds this canonical form; any other
//! spelling is reported as a parse error.

use vstd::prelude::*;

verus! {

use crate::generic_tui::Error;
use crate::pet::Pet;
use crate::pet::PetView;
use crate::text::digit_char;
use crate::text::digit_val;
use crate::text::is_ascii_digit;
use crate::text::push_dec;
use crate::text::spec_dec;

/// The mathematical content of a pet collection.
pub open spec fn views_of(ps: Seq<Pet>) -> Seq<PetView> {
    ps.map_values(|p: Pet| p@)
}

/// The field label that opens a record object.
pub open spec fn lit_id() -> Seq<char> {
    seq!['{', '"', 'i', 'd', '"', ':']
}

/// The field label between the identifier and the name.
pub open spec fn lit_name() -> Seq<char> {
    seq![',', '"', 'n', 'a', 'm', 'e', '"', ':']
}

/// The field label between the name and the category.
pub open spec fn lit_category() -> Seq<char> {
    seq![',', '"', 'c', 'a', 't', 'e', 'g', 'o', 'r', 'y', '"', ':']
}

/// The field label between the category and the age.
pub open spec fn lit_age() -> Seq<char> {
    seq![',', '"', 'a', 'g', 'e', '"', ':']
}

/// The field label between the age and the creation time.
pub open spec fn lit_created() -> Seq<char> {
    seq![',', '"', 'c', 'r', 'e', 'a', 't', 'e', 'd', '_', 'a', 't', '"', ':']
}

/// A string field in quotes, written with no escaping; only quote-free
/// strings are written, so the text stays unambiguous.
pub open spec fn spec_quoted(s: Seq<char>) -> Seq<char> {
    seq!['"'] + s + seq!['"']
}

/// One record object in the store text.
pub open spec fn spec_encode_pet(p: PetView) -> Seq<char> {
    lit_id() + spec_dec(p.id) + lit_name() + spec_quoted(p.name) + lit_category() + spec_quoted(
        p.category,
    ) + lit_age() + spec_dec(p.age) + lit_created() + spec_dec(p.created_at) + seq!['}']
}

/// The store text after the first record: each further record preceded by a
/// comma, then the closing bracket.
pub open spec fn spec_encode_from(ps: Seq<PetView>, i: int) -> Seq<char>
    decreases ps.len() - i,
{
    if i < 0 || i >= ps.len() {
        seq![']']
    } else {
        seq![','] + spec_encode_pet(ps[i]) + spec_encode_from(ps, i + 1)
    }
}

/// The whole store text of a collection.
pub open spec fn spec_encode(ps: Seq<PetView>) -> Seq<char> {
    if ps.len() == 0 {
        seq!['[', ']']
    } else {
        seq!['['] + spec_encode_pet(ps[0]) + spec_encode_from(ps, 1)
    }
}

/// Append a literal segment to the output.
fn push_lit(out: &mut Vec<char>, lit: &str)
    ensures
        final(out)@ == old(out)@ + lit@,
{
    let n = lit.unicode_len();
    let mut i: usize = 0;
    while i < n
        invariant
            n == lit@.len(),
            i <= n,
            out@ == old(out)@ + lit@.take(i as int),
        decreases n - i,
    {
        out.push(lit.get_char(i));
        i = i + 1;
        assert(out@ =~= old(out)@ + lit@.take(i as int));
    }
    assert(out@ =~= old(out)@ + lit@);
}

/// Append a quoted string field to the output.
fn push_quoted(out: &mut Vec<char>, s: &str)
    ensures
        final(out)@ == old(out)@ + spec_quoted(s@),
{
    out.push('"');
    let n = s.unicode_len();
    let mut i: usize = 0;
    while i < n
        invariant
            n == s@.len(),
            i <= n,
            out@ == old(out)@ + seq!['"'] + s@.take(i as int),
        decreases n - i,
    {
        out.push(s.get_char(i));
        i = i + 1;
        assert(out@ =~= old(out)@ + seq!['"'] + s@.take(i as int));
    }
    out.push('"');
    assert(out@ =~= old(out)@ + spec_quoted(s@));
}

/// Append one record object to the output.
fn push_pet(out: &mut Vec<char>, p: &Pet)
    ensures
        final(out)@ == old(out)@ + spec_encode_pet(p@),
{
    proof {
        reveal_strlit("{\"id\":");
        reveal_strlit(",\"name\":");
        reveal_strlit(",\"category\":");
        reveal_strlit(",\"age\":");
        reveal_strlit(",\"created_at\":");
        assert("{\"id\":"@ =~= lit_id());
        assert(",\"name\":"@ =~= lit_name());
        assert(",\"category\":"@ =~= lit_category());
        assert(",\"age\":"@ =~= lit_age());
        assert(",\"created_at\":"@ =~= lit_created());
    }
    push_lit(out, "{\"id\":");
    push_dec(out, p.id as u64);
    push_lit(out, ",\"name\":");
    push_quoted(out, p.name.as_str());
    push_lit(out, ",\"category\":");
    push_quoted(out, p.category.as_str());
    push_lit(out, ",\"age\":");
    push_dec(out, p.age as u64);
    push_lit(out, ",\"created_at\":");
    push_dec(out, p.created_at);
    out.push('}');
    assert(out@ =~= old(out)@ + spec_encode_pet(p@));
}

/// Append the records after the first, each preceded by a comma, then the
/// closing bracket.
fn push_from(out: &mut Vec<char>, pets: &Vec<Pet>, i: usize)
    requires
        0 < i,
    ensures
        final(out)@ == old(out)@ + spec_encode_from(views_of(pets@), i as int),
    decreases pets@.len() - i,
{
    if i >= pets.len() {
        out.push(']');
        assert(out@ =~= old(out)@ + spec_encode_from(views_of(pets@), i as int));
    } else {
        out.push(',');
        push_pet(out, &pets[i]);
        push_from(out, pets, i + 1);
        assert(views_of(pets@)[i as int] == pets@[i as int]@);
        assert(out@ =~= old(out)@ + spec_encode_from(views_of(pets@), i as int));
    }
}

/// The store text of a collection, ready to be written to the store file.
pub fn store_encode(pets: &Vec<Pet>) -> (r: String)
    ensures
        r@ == spec_encode(views_of(pets@)),
{
    let mut out: Vec<char> = Vec::new();
    out.push('[');
    if pets.len() == 0 {
        out.push(']');
        assert(out@ =~= spec_encode(views_of(pets@)));
    } else {
        push_pet(&mut out, &pets[0]);
        push_from(&mut out, pets, 1);
        assert(views_of(pets@)[0] == pets@[0]@);
        assert(out@ =~= spec_encode(views_of(pets@)));
    }
    crate::ext::chars_to_string(&out)
}


/// Powers of ten.
pub open spec fn pow10(k: int) -> int
    decreases k,
{
    if k <= 0 {
        1
    } else {
        10 * pow10(k - 1)
    }
}

/// Consume `lit` from the front of `s`, character by character.
pub open spec fn spec_parse_lit(s: Seq<char>, lit: Seq<char>) -> Option<Seq<char>>
    decreases lit.len(),
{
    if lit.len() == 0 {
        Some(s)
    } else if s.len() > 0 && s[0] == lit[0] {
        spec_parse_lit(s.drop_first(), lit.drop_first())
    } else {
        None
    }
}

/// Consume digits from the front of `s` into an accumulated value.
pub open spec fn spec_parse_num_acc(s: Seq<char>, acc: int) -> (int, Seq<char>)
    decreases s.len(),
{
    if s.len() > 0 && is_ascii_digit(s[0]) {
        spec_parse_num_acc(s.drop_first(), acc * 10 + digit_val(s[0]))
    } else {
        (acc, s)
    }
}

/// Consume a non-empty run of digits from the front of `s` as a number.
pub open spec fn spec_parse_number(s: Seq<char>) -> Option<(int, Seq<char>)> {
    if s.len() > 0 && is_ascii_digit(s[0]) {
        Some(spec_parse_num_acc(s, 0))
    } else {
        None
    }
}

/// Consume the remainder of a quoted string, up to and including the closing
/// quote.
pub open spec fn spec_parse_qchars(s: Seq<char>) -> Option<(Seq<char>, Seq<char>)>
    decreases s.len(),
{
    if s.len() == 0 {
        None
    } else if s[0] == '"' {
        Some((Seq::empty(), s.drop_first()))
    } else {
        match spec_parse_qchars(s.drop_first()) {
            None => None,
            Some(p) => Some((seq![s[0]] + p.0, p.1)),
        }
    }
}

/// Consume a quoted string from the front of `s`, both quotes included.
pub open spec fn spec_parse_qstr(s: Seq<char>) -> Option<(Seq<char>, Seq<char>)> {
    if s.len() > 0 && s[0] == '"' {
        spec_parse_qchars(s.drop_first())
    } else {
        None
    }
}

/// Consume one record object from the front of `s`. Fails on any shape the
/// encoder does not produce, and on a field beyond its machine bound.
pub open spec fn spec_parse_pet(s: Seq<char>) -> Option<(PetView, Seq<char>)> {
    match spec_parse_lit(s, lit_id()) {
        None => None,
        Some(s1) => match spec_parse_number(s1) {
            None => None,
            Some((id, s2)) => if id > usize::MAX as int {
                None
            } else {
                match spec_parse_lit(s2, lit_name()) {
                    None => None,
                    Some(s3) => match spec_parse_qstr(s3) {
                        None => None,
                        Some((nm, s4)) => match spec_parse_lit(s4, lit_category()) {
                            None => None,
                            Some(s5) => match spec_parse_qstr(s5) {
                                None => None,
                                Some((cat, s6)) => match spec_parse_lit(s6, lit_age()) {
                                    None => None,
                                    Some(s7) => match spec_parse_number(s7) {
                                        None => None,
                                        Some((age, s8)) => if age > usize::MAX as int {
                                            None
                                        } else {
                                            match spec_parse_lit(s8, lit_created()) {
                                                None => None,
                                                Some(s9) => match spec_parse_number(s9) {
                                                    None => None,
                                                    Some((ca, s10)) => if ca > u64::MAX as int {
                                                        None
                                                    } else {
                                                        match spec_parse_lit(s10, seq!['}']) {
                                                            None => None,
                                                            Some(rest) => Some(
                                                                (
                                                                    PetView {
                                                                        id: id,
                                                                        name: nm,
                                                                        category: cat,
                                                                        age: age,
                                                                        created_at: ca,
                                                                    },
                                                                    rest,
                                                                ),
                                                            ),
                                                        }
                                                    },
                                                },
                                            }
                                        },
                                    },
                                },
                            },
                        },
                    },
                }
            },
        },
    }
}

/// Consume the records after the first, each preceded by a comma, up to and
/// including the closing bracket.
pub open spec fn spec_parse_records_rest(s: Seq<char>) -> Option<(Seq<PetView>, Seq<char>)>
    decreases s.len(),
{
    if s.len() > 0 && s[0] == ']' {
        Some((Seq::empty(), s.drop_first()))
    } else {
        match spec_parse_lit(s, seq![',']) {
            None => None,
            Some(s1) => match spec_parse_pet(s1) {
                None => None,
                // a record's text is never empty, so a successful parse always
                // advances; the guard keeps the recursion well-founded
                Some((p, s2)) => if s2.len() < s.len() {
                    match spec_parse_records_rest(s2) {
                        None => None,
                        Some((ps, rest)) => Some((seq![p] + ps, rest)),
                    }
                } else {
                    None
                },
            },
        }
    }
}

/// Parse a whole store text: the collection it denotes, or nothing if the
/// text is not exactly a record array as the encoder writes it.
pub open spec fn spec_parse_store(s: Seq<char>) -> Option<Seq<PetView>> {
    match spec_parse_lit(s, seq!['[']) {
        None => None,
        Some(s1) => if s1.len() > 0 && s1[0] == ']' {
            if s1.len() == 1 {
                Some(Seq::empty())
            } else {
                None
            }
        } else {
            match spec_parse_pet(s1) {
                None => None,
                Some((p, s2)) => match spec_parse_records_rest(s2) {
                    None => None,
                    Some((ps, rest)) => if rest.len() == 0 {
                        Some(seq![p] + ps)
                    } else {
                        None
                    },
                },
            }
        },
    }
}


/// Parsing a literal off a text that begins with it consumes exactly the
/// literal.
pub proof fn lemma_parse_lit_enc(lit: Seq<char>, rest: Seq<char>)
    ensures
        spec_parse_lit(lit + rest, lit) == Some(rest),
    decreases lit.len(),
{
    if lit.len() == 0 {
        assert(lit + rest =~= rest);
    } else {
        assert((lit + rest)[0] == lit[0]);
        assert((lit + rest).drop_first() =~= lit.drop_first() + rest);
        lemma_parse_lit_enc(lit.drop_first(), rest);
    }
}

/// Digit consumption only grows the accumulated value.
pub proof fn lemma_num_acc_grows(s: Seq<char>, acc: int)
    requires
        0 <= acc,
    ensures
        acc <= spec_parse_num_acc(s, acc).0,
    decreases s.len(),
{
    if s.len() > 0 && is_ascii_digit(s[0]) {
        lemma_num_acc_grows(s.drop_first(), acc * 10 + digit_val(s[0]));
    }
}

/// Consuming the decimal rendering of `n` multiplies the accumulated value by
/// the matching power of ten and adds `n`.
pub proof fn lemma_num_acc_enc(n: int, acc: int, rest: Seq<char>)
    requires
        0 <= n,
        0 <= acc,
    ensures
        spec_parse_num_acc(spec_dec(n) + rest, acc) == spec_parse_num_acc(
            rest,
            acc * pow10(spec_dec(n).len() as int) + n,
        ),
    decreases n,
{
    crate::text::lemma_dec_digits(n);
    if n < 10 {
        crate::text::lemma_digit_roundtrip(n);
        let s = spec_dec(n) + rest;
        assert(s[0] == digit_char(n));
        assert(s.drop_first() =~= rest);
        assert(pow10(0) == 1);
        assert(pow10(1) == 10);
    } else {
        let m = n / 10;
        let d = n % 10;
        crate::text::lemma_digit_roundtrip(d);
        let tail = seq![digit_char(d)] + rest;
        assert(spec_dec(n) + rest =~= spec_dec(m) + tail);
        lemma_num_acc_enc(m, acc, tail);
        let lm = spec_dec(m).len() as int;
        let a1 = acc * pow10(lm) + m;
        assert(0 <= a1) by {
            assert(0 < pow10(lm)) by {
                lemma_pow10_pos(lm);
            }
            assert(0 <= acc * pow10(lm)) by (nonlinear_arith)
                requires
                    0 <= acc,
                    0 < pow10(lm),
            ;
        }
        assert(tail[0] == digit_char(d));
        assert(tail.drop_first() =~= rest);
        assert(spec_parse_num_acc(tail, a1) == spec_parse_num_acc(rest, a1 * 10 + d));
        assert(spec_dec(n).len() as int == lm + 1);
        assert(pow10(lm + 1) == 10 * pow10(lm));
        assert(n == 10 * m + d);
        assert(a1 * 10 + d == acc * (10 * pow10(lm)) + n) by (nonlinear_arith)
            requires
                a1 == acc * pow10(lm) + m,
                n == 10 * m + d,
        ;
    }
}

/// Powers of ten are positive.
pub proof fn lemma_pow10_pos(k: int)
    ensures
        0 < pow10(k),
    decreases k,
{
    if k > 0 {
        lemma_pow10_pos(k - 1);
    }
}

/// Parsing a number off the decimal rendering of `n` followed by a non-digit
/// yields exactly `n`.
pub proof fn lemma_parse_number_enc(n: int, rest: Seq<char>)
    requires
        0 <= n,
        rest.len() == 0 || !is_ascii_digit(rest[0]),
    ensures
        spec_parse_number(spec_dec(n) + rest) == Some((n, rest)),
{
    crate::text::lemma_dec_digits(n);
    let s = spec_dec(n) + rest;
    assert(s[0] == spec_dec(n)[0]);
    lemma_num_acc_enc(n, 0, rest);
    assert(0 * pow10(spec_dec(n).len() as int) + n == n);
    assert(spec_parse_num_acc(rest, n) == (n, rest));
}

/// Parsing a quoted-string remainder off a quote-free string followed by the
/// closing quote yields exactly that string.
pub proof fn lemma_parse_qchars_enc(name: Seq<char>, rest: Seq<char>)
    requires
        forall|i: int| 0 <= i < name.len() ==> name[i] != '"',
    ensures
        spec_parse_qchars(name + seq!['"'] + rest) == Some((name, rest)),
    decreases name.len(),
{
    let s = name + seq!['"'] + rest;
    if name.len() == 0 {
        assert(s[0] == '"');
        assert(s.drop_first() =~= rest);
        assert(name =~= Seq::<char>::empty());
    } else {
        assert(s[0] == name[0]);
        assert(s.drop_first() =~= name.drop_first() + seq!['"'] + rest);
        lemma_parse_qchars_enc(name.drop_first(), rest);
        assert(seq![name[0]] + name.drop_first() =~= name);
    }
}

/// Parsing a quoted string off the quoted form of a quote-free string yields
/// exactly that string.
pub proof fn lemma_parse_qstr_enc(name: Seq<char>, rest: Seq<char>)
    requires
        forall|i: int| 0 <= i < name.len() ==> name[i] != '"',
    ensures
        spec_parse_qstr(spec_quoted(name) + rest) == Some((name, rest)),
{
    let s = spec_quoted(name) + rest;
    assert(s[0] == '"');
    assert(s.drop_first() =~= name + seq!['"'] + rest);
    lemma_parse_qchars_enc(name, rest);
}

/// Parsing one record off its encoding followed by anything yields exactly
/// that record, for every storable record.
#[verifier::rlimit(60)]
pub proof fn lemma_parse_pet_enc(p: PetView, rest: Seq<char>)
    requires
        p.valid(),
    ensures
        spec_parse_pet(spec_encode_pet(p) + rest) == Some((p, rest)),
{
    let t10 = seq!['}'] + rest;
    let t9 = spec_dec(p.created_at) + t10;
    let t8 = lit_created() + t9;
    let t7 = spec_dec(p.age) + t8;
    let t6 = lit_age() + t7;
    let t5 = spec_quoted(p.category) + t6;
    let t4 = lit_category() + t5;
    let t3 = spec_quoted(p.name) + t4;
    let t2 = lit_name() + t3;
    let t1 = spec_dec(p.id) + t2;
    let s = lit_id() + t1;
    assert(spec_encode_pet(p) + rest =~= s);
    lemma_parse_lit_enc(lit_id(), t1);
    assert(t2[0] == ',');
    lemma_parse_number_enc(p.id, t2);
    lemma_parse_lit_enc(lit_name(), t3);
    lemma_parse_qstr_enc(p.name, t4);
    lemma_parse_lit_enc(lit_category(), t5);
    lemma_parse_qstr_enc(p.category, t6);
    lemma_parse_lit_enc(lit_age(), t7);
    assert(t8[0] == ',');
    lemma_parse_number_enc(p.age, t8);
    lemma_parse_lit_enc(lit_created(), t9);
    assert(t10[0] == '}');
    lemma_parse_number_enc(p.created_at, t10);
    assert(t10 =~= seq!['}'] + rest);
    lemma_parse_lit_enc(seq!['}'], rest);
    assert(spec_parse_pet(s) == Some((p, rest)));
}

/// A record encoding is never empty.
pub proof fn lemma_encode_pet_len(p: PetView)
    ensures
        spec_encode_pet(p).len() > lit_id().len(),
{
}

/// Parsing the encoded tail of a collection from position `i` yields exactly
/// the records from `i` on, with nothing left over.
pub proof fn lemma_parse_from_enc(ps: Seq<PetView>, i: int)
    requires
        0 <= i <= ps.len(),
        forall|j: int| 0 <= j < ps.len() ==> (#[trigger] ps[j]).valid(),
    ensures
        spec_parse_records_rest(spec_encode_from(ps, i)) == Some(
            (ps.skip(i), Seq::<char>::empty()),
        ),
    decreases ps.len() - i,
{
    let s = spec_encode_from(ps, i);
    if i == ps.len() {
        assert(s[0] == ']');
        assert(s.drop_first() =~= Seq::<char>::empty());
        assert(ps.skip(i) =~= Seq::<PetView>::empty());
    } else {
        let s1 = spec_encode_pet(ps[i]) + spec_encode_from(ps, i + 1);
        assert(s =~= seq![','] + s1);
        assert(s[0] == ',');
        lemma_parse_lit_enc(seq![','], s1);
        lemma_parse_pet_enc(ps[i], spec_encode_from(ps, i + 1));
        let s2 = spec_encode_from(ps, i + 1);
        lemma_encode_pet_len(ps[i]);
        assert(s.len() == 1 + spec_encode_pet(ps[i]).len() + s2.len());
        assert(s2.len() < s.len());
        lemma_parse_from_enc(ps, i + 1);
        assert(seq![ps[i]] + ps.skip(i + 1) =~= ps.skip(i));
    }
}

/// Writing a storable collection to the store text and parsing the text back
/// yields exactly the original collection.
pub proof fn lemma_store_round_trip(ps: Seq<PetView>)
    requires
        forall|j: int| 0 <= j < ps.len() ==> (#[trigger] ps[j]).valid(),
    ensures
        spec_parse_store(spec_encode(ps)) == Some(ps),
{
    let s = spec_encode(ps);
    if ps.len() == 0 {
        assert(s =~= seq!['['] + seq![']']);
        lemma_parse_lit_enc(seq!['['], seq![']']);
        assert(ps =~= Seq::<PetView>::empty());
    } else {
        let s1 = spec_encode_pet(ps[0]) + spec_encode_from(ps, 1);
        assert(s =~= seq!['['] + s1);
        lemma_parse_lit_enc(seq!['['], s1);
        lemma_encode_pet_len(ps[0]);
        assert(s1[0] == spec_encode_pet(ps[0])[0]);
        assert(s1[0] == '{');
        lemma_parse_pet_enc(ps[0], spec_encode_from(ps, 1));
        lemma_parse_from_enc(ps, 1);
        assert(seq![ps[0]] + ps.skip(1) =~= ps);
    }
}


/// Consume `lit` at `pos`, giving the position after it.
fn parse_lit(s: &str, pos: usize, lit: &str) -> (r: Option<usize>)
    requires
        pos <= s@.len(),
    ensures
        match r {
            Some(q) => pos <= q <= s@.len() && spec_parse_lit(s@.skip(pos as int), lit@) == Some(
                s@.skip(q as int),
            ),
            None => spec_parse_lit(s@.skip(pos as int), lit@) is None,
        },
    decreases lit@.len(),
{
    let n = lit.unicode_len();
    if n == 0 {
        Some(pos)
    } else if pos == s.unicode_len() {
        proof {
            assert(s@.skip(pos as int).len() == 0);
        }
        None
    } else {
        let c = s.get_char(pos);
        let l0 = lit.get_char(0);
        proof {
            assert(s@.skip(pos as int)[0] == s@[pos as int]);
        }
        if c == l0 {
            let lrest = lit.substring_char(1, n);
            proof {
                assert(lrest@ =~= lit@.drop_first());
                assert(s@.skip(pos as int).drop_first() =~= s@.skip(pos as int + 1));
            }
            parse_lit(s, pos + 1, lrest)
        } else {
            None
        }
    }
}

/// Consume a digit run at `pos` into an accumulated value, refusing numbers
/// beyond the 64-bit range.
fn parse_num_rec(s: &str, pos: usize, acc: u64) -> (r: Option<(u64, usize)>)
    requires
        pos <= s@.len(),
    ensures
        ({
            let t = spec_parse_num_acc(s@.skip(pos as int), acc as int);
            match r {
                Some(p2) => pos <= p2.1 <= s@.len() && t == (p2.0 as int, s@.skip(p2.1 as int)),
                None => t.0 > u64::MAX as int,
            }
        }),
    decreases s@.len() - pos,
{
    if pos == s.unicode_len() {
        proof {
            assert(s@.skip(pos as int).len() == 0);
        }
        Some((acc, pos))
    } else {
        let c = s.get_char(pos);
        proof {
            assert(s@.skip(pos as int)[0] == s@[pos as int]);
            assert(s@.skip(pos as int).drop_first() =~= s@.skip(pos as int + 1));
        }
        if crate::text::is_digit_char(c) {
            let d = crate::text::digit_val_of(c);
            let lim = (u64::MAX - d) / 10;
            if acc > lim {
                proof {
                    assert(acc * 10 + d > u64::MAX) by {
                        assert(u64::MAX - d == 10 * lim + (u64::MAX - d) % 10);
                        assert(acc * 10 >= (lim + 1) * 10);
                    }
                    lemma_num_acc_grows(
                        s@.skip(pos as int + 1),
                        acc as int * 10 + digit_val(s@[pos as int]),
                    );
                }
                None
            } else {
                proof {
                    assert(acc * 10 + d <= u64::MAX) by {
                        assert(u64::MAX - d >= 10 * lim);
                        assert(acc * 10 <= lim * 10);
                    }
                }
                let acc2 = acc * 10 + d;
                parse_num_rec(s, pos + 1, acc2)
            }
        } else {
            Some((acc, pos))
        }
    }
}

/// Consume a number at `pos`: a non-empty digit run within the 64-bit range.
fn parse_number(s: &str, pos: usize) -> (r: Option<(u64, usize)>)
    requires
        pos <= s@.len(),
    ensures
        ({
            let t = spec_parse_number(s@.skip(pos as int));
            match r {
                Some(p2) => pos <= p2.1 <= s@.len() && t == Some(
                    (p2.0 as int, s@.skip(p2.1 as int)),
                ),
                None => t is None || (t matches Some(v) && v.0 > u64::MAX as int),
            }
        }),
{
    if pos == s.unicode_len() {
        proof {
            assert(s@.skip(pos as int).len() == 0);
        }
        None
    } else {
        let c = s.get_char(pos);
        proof {
            assert(s@.skip(pos as int)[0] == s@[pos as int]);
        }
        if crate::text::is_digit_char(c) {
            parse_num_rec(s, pos, 0)
        } else {
            None
        }
    }
}

/// Consume the remainder of a quoted string at `pos`, up to and including
/// the closing quote.
fn parse_qchars(s: &str, pos: usize) -> (r: Option<(Vec<char>, usize)>)
    requires
        pos <= s@.len(),
    ensures
        ({
            let t = spec_parse_qchars(s@.skip(pos as int));
            match r {
                Some(p2) => pos <= p2.1 <= s@.len() && t == Some((p2.0@, s@.skip(p2.1 as int))),
                None => t is None,
            }
        }),
    decreases s@.len() - pos,
{
    if pos == s.unicode_len() {
        proof {
            assert(s@.skip(pos as int).len() == 0);
        }
        None
    } else {
        let c = s.get_char(pos);
        proof {
            assert(s@.skip(pos as int)[0] == s@[pos as int]);
            assert(s@.skip(pos as int).drop_first() =~= s@.skip(pos as int + 1));
        }
        if c == '"' {
            let v: Vec<char> = Vec::new();
            proof {
                assert(v@ =~= Seq::<char>::empty());
            }
            Some((v, pos + 1))
        } else {
            match parse_qchars(s, pos + 1) {
                None => None,
                Some((sub, q)) => {
                    let ghost sub0 = sub@;
                    let mut v = sub;
                    v.insert(0, c);
                    proof {
                        assert(v@ =~= seq![c] + sub0);
                    }
                    Some((v, q))
                },
            }
        }
    }
}

/// Consume one record object at `pos`.
fn parse_pet(s: &str, pos: usize) -> (r: Option<(Pet, usize)>)
    requires
        pos <= s@.len(),
    ensures
        ({
            let t = spec_parse_pet(s@.skip(pos as int));
            match r {
                Some(p2) => pos <= p2.1 <= s@.len() && t == Some((p2.0@, s@.skip(p2.1 as int))),
                None => t is None,
            }
        }),
{
    proof {
        reveal_strlit("{\"id\":");
        reveal_strlit(",\"name\":");
        reveal_strlit(",\"category\":");
        reveal_strlit(",\"age\":");
        reveal_strlit(",\"created_at\":");
        reveal_strlit("}");
        assert("{\"id\":"@ =~= lit_id());
        assert(",\"name\":"@ =~= lit_name());
        assert(",\"category\":"@ =~= lit_category());
        assert(",\"age\":"@ =~= lit_age());
        assert(",\"created_at\":"@ =~= lit_created());
        assert("}"@ =~= seq!['}']);
        assert(usize::MAX as int <= u64::MAX as int);
    }
    let q1 = match parse_lit(s, pos, "{\"id\":") {
        None => {
            return None;
        },
        Some(q) => q,
    };
    let (idv, q2) = match parse_number(s, q1) {
        None => {
            return None;
        },
        Some(p2) => p2,
    };
    if idv > usize::MAX as u64 {
        return None;
    }
    let id: usize = idv as usize;
    let q3 = match parse_lit(s, q2, ",\"name\":") {
        None => {
            return None;
        },
        Some(q) => q,
    };
    let (nm, q4) = match parse_qstr(s, q3) {
        None => {
            return None;
        },
        Some(p2) => p2,
    };
    let q5 = match parse_lit(s, q4, ",\"category\":") {
        None => {
            return None;
        },
        Some(q) => q,
    };
    let (cat, q6) = match parse_qstr(s, q5) {
        None => {
            return None;
        },
        Some(p2) => p2,
    };
    let q7 = match parse_lit(s, q6, ",\"age\":") {
        None => {
            return None;
        },
        Some(q) => q,
    };
    let (agev, q8) = match parse_number(s, q7) {
        None => {
            return None;
        },
        Some(p2) => p2,
    };
    if agev > usize::MAX as u64 {
        return None;
    }
    let age: usize = agev as usize;
    let q9 = match parse_lit(s, q8, ",\"created_at\":") {
        None => {
            return None;
        },
        Some(q) => q,
    };
    let (cav, q10) = match parse_number(s, q9) {
        None => {
            return None;
        },
        Some(p2) => p2,
    };
    let q11 = match parse_lit(s, q10, "}") {
        None => {
            return None;
        },
        Some(q) => q,
    };
    let name = crate::ext::chars_to_string(&nm);
    let category = crate::ext::chars_to_string(&cat);
    let pet = Pet { id, name, category, age, created_at: cav };
    Some((pet, q11))
}

/// Consume a quoted string at `pos`, both quotes included.
fn parse_qstr(s: &str, pos: usize) -> (r: Option<(Vec<char>, usize)>)
    requires
        pos <= s@.len(),
    ensures
        ({
            let t = spec_parse_qstr(s@.skip(pos as int));
            match r {
                Some(p2) => pos <= p2.1 <= s@.len() && t == Some((p2.0@, s@.skip(p2.1 as int))),
                None => t is None,
            }
        }),
{
    if pos == s.unicode_len() {
        proof {
            assert(s@.skip(pos as int).len() == 0);
        }
        None
    } else {
        let c = s.get_char(pos);
        proof {
            assert(s@.skip(pos as int)[0] == s@[pos as int]);
            assert(s@.skip(pos as int).drop_first() =~= s@.skip(pos as int + 1));
        }
        if c == '"' {
            parse_qchars(s, pos + 1)
        } else {
            None
        }
    }
}

/// Consume the records after the first, each preceded by a comma, up to and
/// including the closing bracket.
fn parse_records(s: &str, pos: usize) -> (r: Option<(Vec<Pet>, usize)>)
    requires
        pos <= s@.len(),
    ensures
        ({
            let t = spec_parse_records_rest(s@.skip(pos as int));
            match r {
                Some(p2) => pos <= p2.1 <= s@.len() && t == Some(
                    (views_of(p2.0@), s@.skip(p2.1 as int)),
                ),
                None => t is None,
            }
        }),
    decreases s@.len() - pos,
{
    proof {
        reveal_strlit(",");
        assert(","@ =~= seq![',']);
        if pos < s@.len() {
            assert(s@.skip(pos as int)[0] == s@[pos as int]);
        }
    }
    let n = s.unicode_len();
    if pos < n && s.get_char(pos) == ']' {
        let v: Vec<Pet> = Vec::new();
        proof {
            assert(views_of(v@) =~= Seq::<PetView>::empty());
            assert(s@.skip(pos as int).drop_first() =~= s@.skip(pos as int + 1));
        }
        Some((v, pos + 1))
    } else {
        let q1 = match parse_lit(s, pos, ",") {
            None => {
                return None;
            },
            Some(q) => q,
        };
        let (p, q2) = match parse_pet(s, q1) {
            None => {
                return None;
            },
            Some(x) => x,
        };
        if q2 > pos {
            match parse_records(s, q2) {
                None => None,
                Some((sub, q3)) => {
                    let ghost sub0 = sub@;
                    let mut v = sub;
                    v.insert(0, p);
                    proof {
                        assert(views_of(v@) =~= seq![p@] + views_of(sub0));
                    }
                    Some((v, q3))
                },
            }
        } else {
            None
        }
    }
}

/// Read a whole store text: the collection it denotes, or the parse error if
/// the text is not exactly a record array as `store_encode` writes it.
pub fn store_decode(s: &str) -> (r: Result<Vec<Pet>, Error>)
    ensures
        match r {
            Ok(v) => spec_parse_store(s@) == Some(views_of(v@)),
            Err(e) => e == Error::ParseDBError && spec_parse_store(s@) is None,
        },
{
    proof {
        reveal_strlit("[");
        assert("["@ =~= seq!['[']);
        assert(s@.skip(0) =~= s@);
    }
    let n = s.unicode_len();
    let q1 = match parse_lit(s, 0, "[") {
        None => {
            return Err(Error::ParseDBError);
        },
        Some(q) => q,
    };
    if q1 < n && s.get_char(q1) == ']' {
        proof {
            assert(s@.skip(q1 as int)[0] == s@[q1 as int]);
        }
        if q1 + 1 == n {
            let v: Vec<Pet> = Vec::new();
            proof {
                assert(views_of(v@) =~= Seq::<PetView>::empty());
            }
            Ok(v)
        } else {
            Err(Error::ParseDBError)
        }
    } else {
        proof {
            if q1 < s@.len() {
                assert(s@.skip(q1 as int)[0] == s@[q1 as int]);
            } else {
                assert(s@.skip(q1 as int).len() == 0);
            }
        }
        let (p, q2) = match parse_pet(s, q1) {
            None => {
                return Err(Error::ParseDBError);
            },
            Some(x) => x,
        };
        let (sub, q3) = match parse_records(s, q2) {
            None => {
                return Err(Error::ParseDBError);
            },
            Some(x) => x,
        };
        if q3 == n {
            let ghost sub0 = sub@;
            let mut v = sub;
            v.insert(0, p);
            proof {
                assert(views_of(v@) =~= seq![p@] + views_of(sub0));
                assert(s@.skip(q3 as int).len() == 0);
            }
            Ok(v)
        } else {
            Err(Error::ParseDBError)
        }
    }
}

} // verus!



