//! The transliteration engine behind the composition controller.
//!
//! The engine is a pure text-to-text function: the controller re-runs it on
//! the whole accumulated buffer after every append or rewind. Two engines are
//! available: the Avro Phonetic engine of the rupantor crate, and a fixed
//! mapping table with longest-match-wins semantics, which is fully specified
//! here and serves as a stand-in engine.

use vstd::prelude::*;

verus! {

/// The input alphabet of the engines: the buffer holds ASCII bytes.
pub open spec fn ascii_only(s: Seq<u8>) -> bool {
    forall|i: int| 0 <= i < s.len() ==> s[i] < 0x80
}

#[verifier::external_type_specification]
#[verifier::external_body]
pub struct ExAvroPhonetic(rupantor::avro::AvroPhonetic);

/// The Bengali text that the Avro Phonetic engine yields for a given input.
pub uninterp spec fn avro_of(input: Seq<u8>) -> Seq<char>;

/// Relies on rupantor's AvroPhonetic::new: builds the engine over its fixed,
/// embedded rule table.
#[verifier::external_body]
fn avro_new() -> rupantor::avro::AvroPhonetic {
    rupantor::avro::AvroPhonetic::new()
}

/// Relies on rupantor's AvroPhonetic::convert: a deterministic function of
/// the input text alone (the rule table is fixed at build time), which maps
/// empty input to empty output. Its byte-indexed scanning is only sound on
/// ASCII input, hence the bound on the argument.
#[verifier::external_body]
fn avro_convert(engine: &rupantor::avro::AvroPhonetic, input: &Vec<u8>) -> (r: Vec<char>)
    requires
        ascii_only(input@),
    ensures
        r@ == avro_of(input@),
        input@.len() == 0 ==> r@.len() == 0,
{
    let text: String = input.iter().map(|b| *b as char).collect();
    engine.convert(&text).chars().collect()
}

/// One rule of a mapping table: an occurrence of `find` is replaced by
/// `replace`.
#[derive(Debug)]
pub struct TableEntry {
    pub find: Vec<u8>,
    pub replace: Vec<char>,
}

/// Whether `p` is a non-empty prefix of `s`.
pub open spec fn spec_is_prefix(p: Seq<u8>, s: Seq<u8>) -> bool {
    p.len() <= s.len() && p == s.subrange(0, p.len() as int)
}

/// Whether the entry applies at the head of `s`.
pub open spec fn spec_entry_matches(e: TableEntry, s: Seq<u8>) -> bool {
    e.find@.len() > 0 && spec_is_prefix(e.find@, s)
}

/// The winning entry at the head of `s`: the longest match wins, and among
/// equally long matches the earliest entry of the table.
pub open spec fn spec_best_match(t: Seq<TableEntry>, s: Seq<u8>) -> Option<TableEntry>
    decreases t.len(),
{
    if t.len() == 0 {
        None
    } else {
        let prev = spec_best_match(t.drop_last(), s);
        let e = t.last();
        if spec_entry_matches(e, s) {
            match prev {
                Option::None => Option::Some(e),
                Option::Some(p) => if e.find@.len() > p.find@.len() {
                    Option::Some(e)
                } else {
                    Option::Some(p)
                },
            }
        } else {
            prev
        }
    }
}

/// A winning entry always matches at the head of `s`.
pub proof fn lemma_best_match_matches(t: Seq<TableEntry>, s: Seq<u8>)
    ensures
        spec_best_match(t, s) matches Option::Some(e) ==> spec_entry_matches(e, s),
    decreases t.len(),
{
    if t.len() > 0 {
        lemma_best_match_matches(t.drop_last(), s);
    }
}

/// The conversion a mapping table defines: scan the input left to right; at
/// each position apply the winning rule and skip what it consumed, or copy
/// the byte unchanged where no rule applies.
pub open spec fn spec_table_convert(t: Seq<TableEntry>, s: Seq<u8>) -> Seq<char>
    decreases s.len(),
    via spec_table_convert_decreases
{
    if s.len() == 0 {
        Seq::empty()
    } else {
        match spec_best_match(t, s) {
            Option::Some(e) => e.replace@ + spec_table_convert(
                t,
                s.subrange(e.find@.len() as int, s.len() as int),
            ),
            Option::None => seq![s[0] as char] + spec_table_convert(t, s.subrange(1, s.len() as int)),
        }
    }
}

#[via_fn]
proof fn spec_table_convert_decreases(t: Seq<TableEntry>, s: Seq<u8>) {
    if s.len() > 0 {
        lemma_best_match_matches(t, s);
    }
}

/// Whether `p` is a non-empty prefix of `s` from position `pos` on.
fn is_prefix_at(p: &Vec<u8>, s: &Vec<u8>, pos: usize) -> (r: bool)
    requires
        pos <= s@.len(),
    ensures
        r == spec_is_prefix(p@, s@.subrange(pos as int, s@.len() as int)),
{
    let slen = s.len();
    if p.len() > slen - pos {
        assert(!spec_is_prefix(p@, s@.subrange(pos as int, s@.len() as int)));
        return false;
    }
    let mut j: usize = 0;
    while j < p.len()
        invariant
            j <= p@.len(),
            pos <= slen,
            slen == s@.len(),
            p@.len() <= slen - pos,
            forall|q: int| 0 <= q < j ==> p@[q] == s@[pos + q],
        decreases p@.len() - j,
    {
        if p[j] != s[pos + j] {
            assert(p@ != s@.subrange(pos as int, s@.len() as int).subrange(0, p@.len() as int))
                by {
                let sub = s@.subrange(pos as int, s@.len() as int).subrange(0, p@.len() as int);
                assert(sub[j as int] == s@[pos + j]);
            }
            return false;
        }
        j = j + 1;
    }
    assert(p@ =~= s@.subrange(pos as int, s@.len() as int).subrange(0, p@.len() as int));
    true
}

/// The index of the winning entry for the tail of `s` starting at `pos`, if
/// any rule applies there.
fn best_match_at(table: &Vec<TableEntry>, s: &Vec<u8>, pos: usize) -> (r: Option<usize>)
    requires
        pos <= s@.len(),
    ensures
        match r {
            Option::Some(bi) => bi < table@.len() && spec_best_match(
                table@,
                s@.subrange(pos as int, s@.len() as int),
            ) == Option::Some(table@[bi as int]),
            Option::None => spec_best_match(
                table@,
                s@.subrange(pos as int, s@.len() as int),
            ) is None,
        },
{
    let ghost tail = s@.subrange(pos as int, s@.len() as int);
    let mut best: Option<usize> = Option::None;
    let mut i: usize = 0;
    while i < table.len()
        invariant
            i <= table@.len(),
            pos <= s@.len(),
            tail == s@.subrange(pos as int, s@.len() as int),
            match best {
                Option::Some(bi) => bi < i && spec_best_match(
                    table@.subrange(0, i as int),
                    tail,
                ) == Option::Some(table@[bi as int]),
                Option::None => spec_best_match(table@.subrange(0, i as int), tail) is None,
            },
        decreases table@.len() - i,
    {
        let e = &table[i];
        let matches_here = e.find.len() > 0 && is_prefix_at(&e.find, s, pos);
        proof {
            assert(table@.subrange(0, i + 1 as int).drop_last() =~= table@.subrange(0, i as int));
            assert(table@.subrange(0, i + 1 as int).last() == table@[i as int]);
        }
        if matches_here {
            match best {
                Option::None => {
                    best = Option::Some(i);
                },
                Option::Some(bi) => {
                    if table[i].find.len() > table[bi].find.len() {
                        best = Option::Some(i);
                    }
                },
            }
        }
        i = i + 1;
    }
    proof {
        assert(table@.subrange(0, table@.len() as int) =~= table@);
    }
    best
}

/// Append every character of `add` to `out`.
fn push_all(out: &mut Vec<char>, add: &Vec<char>)
    ensures
        final(out)@ == old(out)@ + add@,
{
    let mut q: usize = 0;
    while q < add.len()
        invariant
            q <= add@.len(),
            out@ =~= old(out)@ + add@.subrange(0, q as int),
        decreases add@.len() - q,
    {
        out.push(add[q]);
        q = q + 1;
        assert(out@ =~= old(out)@ + add@.subrange(0, q as int));
    }
    assert(out@ =~= old(out)@ + add@);
}

/// Convert `input` through the mapping table, longest match first.
pub fn table_convert(table: &Vec<TableEntry>, input: &Vec<u8>) -> (r: Vec<char>)
    ensures
        r@ == spec_table_convert(table@, input@),
{
    let mut out: Vec<char> = Vec::new();
    let mut pos: usize = 0;
    proof {
        assert(input@.subrange(0, input@.len() as int) =~= input@);
        assert(out@ + spec_table_convert(table@, input@) =~= spec_table_convert(table@, input@));
    }
    while pos < input.len()
        invariant
            pos <= input@.len(),
            out@ + spec_table_convert(table@, input@.subrange(pos as int, input@.len() as int))
                == spec_table_convert(table@, input@),
        decreases input@.len() - pos,
    {
        let ghost tail = input@.subrange(pos as int, input@.len() as int);
        match best_match_at(table, input, pos) {
            Option::Some(bi) => {
                proof {
                    lemma_best_match_matches(table@, tail);
                }
                let flen = table[bi].find.len();
                assert(flen <= tail.len());
                let ghost out_before = out@;
                push_all(&mut out, &table[bi].replace);
                proof {
                    let rest = tail.subrange(flen as int, tail.len() as int);
                    assert(input@.subrange(pos + flen, input@.len() as int) =~= rest);
                    assert(spec_table_convert(table@, tail) == table@[bi as int].replace@
                        + spec_table_convert(table@, rest));
                    assert(out@ + spec_table_convert(table@, rest) =~= out_before
                        + spec_table_convert(table@, tail));
                }
                pos = pos + flen;
            },
            Option::None => {
                let b = input[pos];
                let ghost out_before = out@;
                out.push(b as char);
                proof {
                    let rest = tail.subrange(1, tail.len() as int);
                    assert(input@.subrange(pos + 1, input@.len() as int) =~= rest);
                    assert(spec_table_convert(table@, tail) == seq![tail[0] as char]
                        + spec_table_convert(table@, rest));
                    assert(out@ + spec_table_convert(table@, rest) =~= out_before
                        + spec_table_convert(table@, tail));
                }
                pos = pos + 1;
            },
        }
    }
    proof {
        assert(input@.subrange(input@.len() as int, input@.len() as int) =~= Seq::<u8>::empty());
    }
    out
}

/// The transliteration engine, as the composition controller sees it.
pub enum Converter {
    /// The Avro Phonetic engine.
    Avro(rupantor::avro::AvroPhonetic),
    /// A fixed mapping table, longest match wins.
    Table(Vec<TableEntry>),
}

impl Converter {
    /// What this engine yields for a given input.
    pub open spec fn spec_convert(&self, input: Seq<u8>) -> Seq<char> {
        match self {
            Converter::Avro(_) => avro_of(input),
            Converter::Table(t) => spec_table_convert(t@, input),
        }
    }

    /// An engine backed by Avro Phonetic.
    pub fn avro() -> (r: Converter)
        ensures
            r is Avro,
    {
        Converter::Avro(avro_new())
    }

    /// Run the engine over the whole input.
    pub fn convert(&self, input: &Vec<u8>) -> (r: Vec<char>)
        requires
            ascii_only(input@),
        ensures
            r@ == self.spec_convert(input@),
            input@.len() == 0 ==> r@.len() == 0,
    {
        match self {
            Converter::Avro(engine) => avro_convert(engine, input),
            Converter::Table(t) => table_convert(t, input),
        }
    }
}

} // verus!
