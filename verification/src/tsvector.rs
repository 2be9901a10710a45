//! The binary text-search-vector format: a length-prefixed sequence of word
//! entries, each a null-terminated word followed by packed position/weight
//! values, together with its canonical textual rendering.

use vstd::prelude::*;
use vstd::slice::slice_subrange;
use vstd::slice::slice_to_vec;
use vstd::string::StringExecFns;
use vstd::utf8::decode_utf8;
use vstd::utf8::valid_utf8;

use crate::text::dec_chars;
use crate::text::push_decimal_u16;
use crate::text::string_from_utf8;
use crate::wire::be_u16_at;
use crate::wire::be_u32_at;
use crate::wire::read_be_u16;
use crate::wire::read_be_u32;

verus! {

/// One position annotation of a word: a position in 0 .. 16383 and a weight in
/// 0 .. 3 (3 renders as `A`, 2 as `B`, 1 as `C`, 0 is unmarked), unpacked from
/// one 16-bit value whose top two bits are the weight.
#[derive(Clone, Copy, Debug, PartialEq, Eq, Structural)]
pub struct LexemeMeta {
    pub position: u16,
    pub weight: u8,
}

/// The unpacking of one packed 16-bit position value: the low fourteen bits
/// are the position, the top two the weight.
pub open spec fn meta_of(packed: u16) -> LexemeMeta {
    LexemeMeta { position: (packed % 0x4000) as u16, weight: (packed / 0x4000) as u8 }
}

impl LexemeMeta {
    /// The ranges that unpacking guarantees.
    pub open spec fn wf(self) -> bool {
        self.position < 0x4000 && self.weight < 4
    }
}

/// Unpacking always lands in the documented ranges.
pub proof fn lemma_meta_of_wf(packed: u16)
    ensures
        meta_of(packed).wf(),
{
}

impl From<u16> for LexemeMeta {
    fn from(packed: u16) -> (r: LexemeMeta) {
        let weight = ((packed >> 14) & 0b11) as u8;
        let position = packed & 0x3fff;
        proof {
            assert((packed >> 14) & 0b11 == packed / 0x4000) by (bit_vector);
            assert(packed & 0x3fff == packed % 0x4000) by (bit_vector);
        }
        LexemeMeta { position, weight }
    }
}

impl vstd::std_specs::convert::FromSpecImpl<u16> for LexemeMeta {
    open spec fn obeys_from_spec() -> bool {
        true
    }

    open spec fn from_spec(packed: u16) -> LexemeMeta {
        meta_of(packed)
    }
}

/// One word of a text-search vector with its position annotations, in the
/// order the byte stream carried them.
#[derive(Clone, Debug, PartialEq)]
pub struct Lexeme {
    pub word: String,
    pub positions: Vec<LexemeMeta>,
}

impl View for Lexeme {
    type V = (Seq<char>, Seq<LexemeMeta>);

    open spec fn view(&self) -> (Seq<char>, Seq<LexemeMeta>) {
        (self.word@, self.positions@)
    }
}

impl Lexeme {
    pub open spec fn wf(self) -> bool {
        forall|i: int| 0 <= i < self.positions@.len() ==> self.positions@[i].wf()
    }
}

/// An ordered sequence of lexemes, exactly as read from the byte stream.
#[derive(Clone, Debug, PartialEq)]
pub struct TsVector {
    pub words: Vec<Lexeme>,
}

impl View for TsVector {
    type V = Seq<(Seq<char>, Seq<LexemeMeta>)>;

    open spec fn view(&self) -> Seq<(Seq<char>, Seq<LexemeMeta>)> {
        self.words@.map_values(|l: Lexeme| l@)
    }
}

/// The byte stream was malformed: it ran out of bytes before the declared
/// counts were satisfied, or a word was not valid UTF-8.
#[derive(Clone, Copy, Debug, PartialEq, Eq, Structural)]
pub struct ParseError;

/// Index of the first zero byte of `b` at or after `i`, if any.
pub open spec fn find_zero(b: Seq<u8>, i: int) -> Option<int>
    decreases b.len() - i,
{
    if i < 0 || i >= b.len() {
        None
    } else if b[i] == 0 {
        Some(i)
    } else {
        find_zero(b, i + 1)
    }
}

/// Parses `k` packed 16-bit position values starting at offset `i`, yielding
/// them and the offset just past them.
pub open spec fn parse_metas(b: Seq<u8>, i: int, k: nat) -> Option<(Seq<LexemeMeta>, int)>
    decreases k,
{
    if k == 0 {
        Some((Seq::empty(), i))
    } else if 0 <= i && i + 2 <= b.len() {
        match parse_metas(b, i + 2, (k - 1) as nat) {
            Some((rest, end)) => Some((seq![meta_of(be_u16_at(b, i))] + rest, end)),
            None => None,
        }
    } else {
        None
    }
}

/// Parses one lexeme at offset `i`: a zero-terminated UTF-8 word, a 16-bit
/// count, and that many packed position values.
pub open spec fn parse_lexeme(b: Seq<u8>, i: int) -> Option<
    ((Seq<char>, Seq<LexemeMeta>), int),
> {
    match find_zero(b, i) {
        None => None,
        Some(z) => {
            let wb = b.subrange(i, z);
            if !valid_utf8(wb) {
                None
            } else if z + 3 <= b.len() {
                match parse_metas(b, z + 3, be_u16_at(b, z + 1) as nat) {
                    Some((ms, end)) => Some(((decode_utf8(wb), ms), end)),
                    None => None,
                }
            } else {
                None
            }
        },
    }
}

/// Parses `k` lexemes starting at offset `i`.
pub open spec fn parse_lexemes(b: Seq<u8>, i: int, k: nat) -> Option<
    (Seq<(Seq<char>, Seq<LexemeMeta>)>, int),
>
    decreases k,
{
    if k == 0 {
        Some((Seq::empty(), i))
    } else {
        match parse_lexeme(b, i) {
            Some((lex, j)) => match parse_lexemes(b, j, (k - 1) as nat) {
                Some((rest, end)) => Some((seq![lex] + rest, end)),
                None => None,
            },
            None => None,
        }
    }
}

/// The whole format: a big-endian 32-bit lexeme count, then that many lexemes.
/// Trailing bytes after the last lexeme are ignored.
pub open spec fn parse_tsvector(b: Seq<u8>) -> Option<Seq<(Seq<char>, Seq<LexemeMeta>)>> {
    if b.len() < 4 {
        None
    } else {
        match parse_lexemes(b, 4, be_u32_at(b, 0) as nat) {
            Some((ls, _end)) => Some(ls),
            None => None,
        }
    }
}

/// The weight annotation characters: `A`, `B`, `C`, or nothing for weight 0.
pub open spec fn weight_chars(w: u8) -> Seq<char> {
    if w == 3 {
        seq!['A']
    } else if w == 2 {
        seq!['B']
    } else if w == 1 {
        seq!['C']
    } else {
        Seq::empty()
    }
}

/// One position annotation: the decimal position, then the weight letter.
pub open spec fn meta_text(m: LexemeMeta) -> Seq<char> {
    dec_chars(m.position as nat) + weight_chars(m.weight)
}

/// Position annotations joined with commas.
pub open spec fn metas_text(ms: Seq<LexemeMeta>) -> Seq<char>
    decreases ms.len(),
{
    if ms.len() == 0 {
        Seq::empty()
    } else if ms.len() == 1 {
        meta_text(ms[0])
    } else {
        meta_text(ms[0]) + seq![','] + metas_text(ms.drop_first())
    }
}

/// One lexeme: the word in single quotes, then, if it has any positions, a
/// colon and the comma-joined annotations.
pub open spec fn lexeme_text(l: (Seq<char>, Seq<LexemeMeta>)) -> Seq<char> {
    if l.1.len() == 0 {
        seq!['\''] + l.0 + seq!['\'']
    } else {
        seq!['\''] + l.0 + seq!['\''] + seq![':'] + metas_text(l.1)
    }
}

/// The canonical rendering: lexeme renderings joined with single spaces; the
/// empty vector renders as the empty string.
pub open spec fn tsvector_text(ls: Seq<(Seq<char>, Seq<LexemeMeta>)>) -> Seq<char>
    decreases ls.len(),
{
    if ls.len() == 0 {
        Seq::empty()
    } else if ls.len() == 1 {
        lexeme_text(ls[0])
    } else {
        lexeme_text(ls[0]) + seq![' '] + tsvector_text(ls.drop_first())
    }
}

/// Appending one annotation on the right extends the comma-joined text on the
/// right.
pub proof fn lemma_metas_text_snoc(ms: Seq<LexemeMeta>, m: LexemeMeta)
    ensures
        metas_text(ms.push(m)) == if ms.len() == 0 {
            meta_text(m)
        } else {
            metas_text(ms) + seq![','] + meta_text(m)
        },
    decreases ms.len(),
{
    let p = ms.push(m);
    if ms.len() == 0 {
        assert(p[0] == m);
    } else {
        assert(p[0] == ms[0]);
        assert(p.drop_first() =~= ms.drop_first().push(m));
        lemma_metas_text_snoc(ms.drop_first(), m);
        if ms.len() == 1 {
            assert(metas_text(p) =~= metas_text(ms) + seq![','] + meta_text(m));
        } else {
            assert(metas_text(p) =~= metas_text(ms) + seq![','] + meta_text(m));
        }
    }
}

/// Appending one lexeme on the right extends the space-joined text on the
/// right.
pub proof fn lemma_tsvector_text_snoc(ls: Seq<(Seq<char>, Seq<LexemeMeta>)>, l: (Seq<char>, Seq<LexemeMeta>))
    ensures
        tsvector_text(ls.push(l)) == if ls.len() == 0 {
            lexeme_text(l)
        } else {
            tsvector_text(ls) + seq![' '] + lexeme_text(l)
        },
    decreases ls.len(),
{
    let p = ls.push(l);
    if ls.len() == 0 {
        assert(p[0] == l);
    } else {
        assert(p[0] == ls[0]);
        assert(p.drop_first() =~= ls.drop_first().push(l));
        lemma_tsvector_text_snoc(ls.drop_first(), l);
        if ls.len() == 1 {
            assert(tsvector_text(p) =~= tsvector_text(ls) + seq![' '] + lexeme_text(l));
        } else {
            assert(tsvector_text(p) =~= tsvector_text(ls) + seq![' '] + lexeme_text(l));
        }
    }
}

/// `find_zero` agrees with a left-to-right scan.
proof fn lemma_find_zero(b: Seq<u8>, i: int, z: int)
    requires
        0 <= i <= z <= b.len(),
        forall|k: int| i <= k < z ==> b[k] != 0,
    ensures
        z < b.len() && b[z] == 0 ==> find_zero(b, i) == Some(z),
        z == b.len() ==> find_zero(b, i) is None,
    decreases z - i,
{
    if i < z {
        lemma_find_zero(b, i + 1, z);
    }
}

/// Prepends already-parsed lexemes to the outcome of parsing the rest.
pub open spec fn with_lex_prefix(
    prefix: Seq<(Seq<char>, Seq<LexemeMeta>)>,
    rest: Option<(Seq<(Seq<char>, Seq<LexemeMeta>)>, int)>,
) -> Option<(Seq<(Seq<char>, Seq<LexemeMeta>)>, int)> {
    match rest {
        Some((ls, end)) => Some((prefix + ls, end)),
        None => None,
    }
}

/// Prepends already-parsed annotations to the outcome of parsing the rest.
pub open spec fn with_meta_prefix(
    prefix: Seq<LexemeMeta>,
    rest: Option<(Seq<LexemeMeta>, int)>,
) -> Option<(Seq<LexemeMeta>, int)> {
    match rest {
        Some((ms, end)) => Some((prefix + ms, end)),
        None => None,
    }
}

impl TsVector {
    /// All position annotations lie in their documented ranges.
    pub open spec fn wf(self) -> bool {
        forall|i: int| 0 <= i < self.words@.len() ==> self.words@[i].wf()
    }

    /// Parses the binary text-search-vector format: succeeds exactly when the
    /// specification-level parser does, and yields exactly its lexemes.
    #[verifier::loop_isolation(false)]
    pub fn try_from(bytes: &[u8]) -> (r: Result<TsVector, ParseError>)
        ensures
            (r matches Ok(v) ==> parse_tsvector(bytes@) == Some(v@) && v.wf()),
            (r is Err ==> parse_tsvector(bytes@) is None),
    {
        let n = bytes.len();
        if n < 4 {
            return Err(ParseError);
        }
        let count = read_be_u32(bytes, 0);
        let mut words: Vec<Lexeme> = Vec::new();
        let mut pos: usize = 4;
        let mut done: u32 = 0;
        proof {
            assert(words@.map_values(|l: Lexeme| l@) =~= Seq::<(Seq<char>, Seq<LexemeMeta>)>::empty());
            match parse_lexemes(bytes@, 4, count as nat) {
                Some((ls, _end)) => {
                    assert(Seq::<(Seq<char>, Seq<LexemeMeta>)>::empty() + ls =~= ls);
                },
                None => {},
            }
        }
        while done < count
            invariant
                4 <= pos <= n,
                done <= count,
                words@.len() == done,
                forall|i: int| 0 <= i < words@.len() ==> words@[i].wf(),
                with_lex_prefix(
                    words@.map_values(|l: Lexeme| l@),
                    parse_lexemes(bytes@, pos as int, (count - done) as nat),
                ) == parse_lexemes(bytes@, 4, count as nat),
            decreases count - done,
        {
            let ghost k = (count - done) as nat;
            let ghost words_prefix = words@.map_values(|l: Lexeme| l@);
            // scan for the word terminator
            let mut z: usize = pos;
            while z < n && bytes[z] != 0
                invariant
                    pos <= z <= n,
                    forall|j: int| pos <= j < z ==> bytes@[j] != 0,
                decreases n - z,
            {
                z += 1;
            }
            if z == n {
                proof {
                    lemma_find_zero(bytes@, pos as int, z as int);
                }
                return Err(ParseError);
            }
            proof {
                lemma_find_zero(bytes@, pos as int, z as int);
            }
            let ghost wb = bytes@.subrange(pos as int, z as int);
            let word_bytes = slice_to_vec(slice_subrange(bytes, pos, z));
            let word = match string_from_utf8(word_bytes) {
                Some(w) => w,
                None => {
                    return Err(ParseError);
                },
            };
            if n - z < 3 {
                return Err(ParseError);
            }
            let npos = read_be_u16(bytes, z + 1);
            let mut metas: Vec<LexemeMeta> = Vec::new();
            let mut mpos: usize = z + 3;
            let mut mdone: u16 = 0;
            proof {
                match parse_metas(bytes@, z + 3, npos as nat) {
                    Some((ms, _end)) => {
                        assert(Seq::<LexemeMeta>::empty() + ms =~= ms);
                    },
                    None => {},
                }
            }
            while mdone < npos
                invariant
                    z + 3 <= mpos <= n,
                    mdone <= npos,
                    metas@.len() == mdone,
                    forall|i: int| 0 <= i < metas@.len() ==> metas@[i].wf(),
                    with_meta_prefix(
                        metas@,
                        parse_metas(bytes@, mpos as int, (npos - mdone) as nat),
                    ) == parse_metas(bytes@, z + 3, npos as nat),
                decreases npos - mdone,
            {
                if n - mpos < 2 {
                    return Err(ParseError);
                }
                let packed = read_be_u16(bytes, mpos);
                let ghost metas_old = metas@;
                metas.push(LexemeMeta::from(packed));
                proof {
                    lemma_meta_of_wf(packed);
                    let rest = parse_metas(bytes@, mpos + 2, (npos - mdone - 1) as nat);
                    match rest {
                        Some((ms, end)) => {
                            assert(metas_old + (seq![meta_of(be_u16_at(bytes@, mpos as int))] + ms)
                                =~= metas@ + ms);
                        },
                        None => {},
                    }
                }
                mpos += 2;
                mdone += 1;
            }
            proof {
                assert(metas@ + Seq::<LexemeMeta>::empty() =~= metas@);
                assert(parse_metas(bytes@, z + 3, npos as nat) == Some((metas@, mpos as int)));
                assert(parse_lexeme(bytes@, pos as int) == Some(((decode_utf8(wb), metas@), mpos as int)));
            }
            let ghost lexv: (Seq<char>, Seq<LexemeMeta>) = (word@, metas@);
            words.push(Lexeme { word, positions: metas });
            proof {
                assert(words@.map_values(|l: Lexeme| l@) =~= words_prefix.push(lexv));
                let rest = parse_lexemes(bytes@, mpos as int, (k - 1) as nat);
                match rest {
                    Some((ls, end)) => {
                        assert(words_prefix + (seq![lexv] + ls) =~= words_prefix.push(lexv) + ls);
                    },
                    None => {},
                }
            }
            pos = mpos;
            done += 1;
        }
        proof {
            let final_prefix = words@.map_values(|l: Lexeme| l@);
            assert(final_prefix + Seq::<(Seq<char>, Seq<LexemeMeta>)>::empty() =~= final_prefix);
            assert(parse_lexemes(bytes@, 4, count as nat) == Some((final_prefix, pos as int)));
        }
        Ok(TsVector { words })
    }

    /// Renders the vector in the database engine's canonical display form.
    #[verifier::loop_isolation(false)]
    #[verifier::rlimit(60)]
    pub fn to_string(&self) -> (r: String)
        ensures
            r@ == tsvector_text(self@),
    {
        proof {
            reveal_strlit(" ");
            reveal_strlit("'");
            reveal_strlit(":");
            reveal_strlit(",");
            reveal_strlit("A");
            reveal_strlit("B");
            reveal_strlit("C");
            reveal_strlit("");
        }
        let mut out = String::new();
        let mut i: usize = 0;
        proof {
            assert(self@.take(0) =~= Seq::<(Seq<char>, Seq<LexemeMeta>)>::empty());
        }
        while i < self.words.len()
            invariant
                i <= self.words@.len(),
                out@ == tsvector_text(self@.take(i as int)),
            decreases self.words@.len() - i,
        {
            let ghost prefix = self@.take(i as int);
            let ghost sep: Seq<char> = if i > 0 { seq![' '] } else { Seq::<char>::empty() };
            if i > 0 {
                out.append(" ");
            }
            let lex = &self.words[i];
            out.append("'");
            out.append(lex.word.as_str());
            out.append("'");
            proof {
                assert(out@ =~= tsvector_text(prefix) + sep + seq!['\''] + lex.word@ + seq!['\'']);
            }
            if lex.positions.len() > 0 {
                out.append(":");
                let mut j: usize = 0;
                proof {
                    assert(lex.positions@.take(0) =~= Seq::<LexemeMeta>::empty());
                    assert(out@ =~= tsvector_text(prefix) + sep + seq!['\''] + lex.word@
                        + seq!['\''] + seq![':'] + metas_text(lex.positions@.take(0)));
                }
                while j < lex.positions.len()
                    invariant
                        j <= lex.positions@.len(),
                        out@ == tsvector_text(prefix) + sep + seq!['\''] + lex.word@
                            + seq!['\''] + seq![':'] + metas_text(lex.positions@.take(j as int)),
                    decreases lex.positions@.len() - j,
                {
                    let ghost mprefix = lex.positions@.take(j as int);
                    if j > 0 {
                        out.append(",");
                    }
                    let m = lex.positions[j];
                    push_decimal_u16(&mut out, m.position);
                    if m.weight == 3 {
                        out.append("A");
                    } else if m.weight == 2 {
                        out.append("B");
                    } else if m.weight == 1 {
                        out.append("C");
                    }
                    proof {
                        lemma_metas_text_snoc(mprefix, m);
                        assert(lex.positions@.take(j + 1) =~= mprefix.push(m));
                        assert(out@ =~= tsvector_text(prefix) + sep + seq!['\''] + lex.word@
                            + seq!['\''] + seq![':'] + metas_text(lex.positions@.take(j + 1)));
                    }
                    j += 1;
                }
                proof {
                    assert(lex.positions@.take(lex.positions@.len() as int) =~= lex.positions@);
                }
            }
            proof {
                lemma_tsvector_text_snoc(prefix, self@[i as int]);
                assert(self@[i as int] == lex@);
                assert(self@.take(i + 1) =~= prefix.push(self@[i as int]));
                assert(out@ =~= tsvector_text(self@.take(i + 1)));
            }
            i += 1;
        }
        proof {
            assert(self@.take(self.words@.len() as int) =~= self@);
        }
        out
    }
}

/// A found terminator lies at or after the scan start and inside the bytes.
proof fn lemma_find_zero_bounds(b: Seq<u8>, i: int)
    requires
        0 <= i,
    ensures
        find_zero(b, i) matches Some(z) ==> i <= z < b.len(),
    decreases b.len() - i,
{
    if i < b.len() && b[i] != 0 {
        lemma_find_zero_bounds(b, i + 1);
    }
}

/// Parsed annotations consume exactly two bytes each and stay in bounds.
proof fn lemma_parse_metas_bounds(b: Seq<u8>, i: int, k: nat)
    requires
        0 <= i <= b.len(),
    ensures
        parse_metas(b, i, k) matches Some((ms, end)) ==> end == i + 2 * k && end <= b.len()
            && ms.len() == k,
    decreases k,
{
    if k > 0 && i + 2 <= b.len() {
        lemma_parse_metas_bounds(b, i + 2, (k - 1) as nat);
    }
}

/// Each parsed lexeme consumes at least three bytes and stays in bounds.
proof fn lemma_parse_lexemes_bounds(b: Seq<u8>, i: int, k: nat)
    requires
        0 <= i <= b.len(),
    ensures
        parse_lexemes(b, i, k) matches Some((ls, end)) ==> end >= i + 3 * k && end <= b.len()
            && ls.len() == k,
    decreases k,
{
    if k > 0 {
        lemma_find_zero_bounds(b, i);
        match find_zero(b, i) {
            Some(z) => {
                if valid_utf8(b.subrange(i, z)) && z + 3 <= b.len() {
                    lemma_parse_metas_bounds(b, z + 3, be_u16_at(b, z + 1) as nat);
                    match parse_metas(b, z + 3, be_u16_at(b, z + 1) as nat) {
                        Some((_ms, j)) => {
                            lemma_parse_lexemes_bounds(b, j, (k - 1) as nat);
                        },
                        None => {},
                    }
                }
            },
            None => {},
        }
    }
}

/// A declared lexeme count that exceeds what the remaining bytes can hold
/// makes the parse fail: every lexeme consumes at least three bytes.
pub proof fn lemma_count_exceeding_bytes_fails(b: Seq<u8>)
    requires
        b.len() >= 4,
        4 + 3 * (be_u32_at(b, 0) as int) > b.len(),
    ensures
        parse_tsvector(b) is None,
{
    lemma_parse_lexemes_bounds(b, 4, be_u32_at(b, 0) as nat);
}

/// Rendering is a pure function of the parsed vector: equal vectors render
/// equally, so rendering twice yields identical text.
pub proof fn lemma_render_deterministic(a: TsVector, b: TsVector)
    requires
        a@ == b@,
    ensures
        tsvector_text(a@) == tsvector_text(b@),
{
}

/// A lexeme without position annotations renders as the quoted word alone,
/// with no colon and no positions.
pub proof fn lemma_render_no_positions(l: (Seq<char>, Seq<LexemeMeta>))
    requires
        l.1.len() == 0,
    ensures
        lexeme_text(l) == seq!['\''] + l.0 + seq!['\''],
{
}

/// A stream that declares zero lexemes parses successfully, to the empty
/// vector, and that vector renders as the empty string.
pub proof fn lemma_zero_lexemes(b: Seq<u8>)
    requires
        b.len() >= 4,
        be_u32_at(b, 0) == 0,
    ensures
        parse_tsvector(b) == Some(Seq::<(Seq<char>, Seq<LexemeMeta>)>::empty()),
        tsvector_text(parse_tsvector(b)->Some_0) == Seq::<char>::empty(),
{
}

} // verus!
