//! Extraction of a runtime version descriptor out of unstructured source
//! text.
//!
//! The extractor first locates the version-declaration block: a header of
//! fixed tokens separated by spaces, then a body running to the first
//! closing brace. Inside that body one field-specific pattern is applied
//! per field: string fields capture a quoted value inside a wrapping call,
//! integer fields capture a bare digit run after a colon. Every pattern is
//! matched at its leftmost occurrence.

use vstd::prelude::*;
use vstd::assert_seqs_equal;
use vstd::slice::slice_subrange;
use crate::bytes::slice_to_vec;
use crate::version::{RuntimeVersion, RuntimeVersionView, VersionField};

verus! {

/// Why extraction failed: no version block at all, one field's pattern
/// missing inside the block, or a digit run too large for its field.
#[derive(Clone, Copy, Debug, PartialEq, Eq, Structural)]
pub enum ExtractError {
    NotFound,
    FieldNotFound(VersionField),
    MalformedInteger(VersionField),
}

/// The bytes of `pub`.
pub open spec fn lit_pub() -> Seq<u8> {
    seq![112u8, 117u8, 98u8]
}

/// The bytes of `const`.
pub open spec fn lit_const() -> Seq<u8> {
    seq![99u8, 111u8, 110u8, 115u8, 116u8]
}

/// The bytes of `VERSION`.
pub open spec fn lit_version_name() -> Seq<u8> {
    seq![86u8, 69u8, 82u8, 83u8, 73u8, 79u8, 78u8]
}

/// The bytes of `RuntimeVersion`.
pub open spec fn lit_runtime_version() -> Seq<u8> {
    seq![82u8, 117u8, 110u8, 116u8, 105u8, 109u8, 101u8, 86u8, 101u8, 114u8, 115u8, 105u8, 111u8, 110u8]
}

/// The bytes of `create_runtime_str!`.
pub open spec fn lit_create_runtime_str() -> Seq<u8> {
    seq![99u8, 114u8, 101u8, 97u8, 116u8, 101u8, 95u8, 114u8, 117u8, 110u8, 116u8, 105u8, 109u8, 101u8, 95u8, 115u8, 116u8, 114u8, 33u8]
}

/// The bytes of `spec_name`.
pub open spec fn lit_spec_name() -> Seq<u8> {
    seq![115u8, 112u8, 101u8, 99u8, 95u8, 110u8, 97u8, 109u8, 101u8]
}

/// The bytes of `impl_name`.
pub open spec fn lit_impl_name() -> Seq<u8> {
    seq![105u8, 109u8, 112u8, 108u8, 95u8, 110u8, 97u8, 109u8, 101u8]
}

/// The bytes of `authoring_version`.
pub open spec fn lit_authoring_version() -> Seq<u8> {
    seq![97u8, 117u8, 116u8, 104u8, 111u8, 114u8, 105u8, 110u8, 103u8, 95u8, 118u8, 101u8, 114u8, 115u8, 105u8, 111u8, 110u8]
}

/// The bytes of `spec_version`.
pub open spec fn lit_spec_version() -> Seq<u8> {
    seq![115u8, 112u8, 101u8, 99u8, 95u8, 118u8, 101u8, 114u8, 115u8, 105u8, 111u8, 110u8]
}

/// The bytes of `impl_version`.
pub open spec fn lit_impl_version() -> Seq<u8> {
    seq![105u8, 109u8, 112u8, 108u8, 95u8, 118u8, 101u8, 114u8, 115u8, 105u8, 111u8, 110u8]
}

/// The bytes of `transaction_version`.
pub open spec fn lit_transaction_version() -> Seq<u8> {
    seq![116u8, 114u8, 97u8, 110u8, 115u8, 97u8, 99u8, 116u8, 105u8, 111u8, 110u8, 95u8, 118u8, 101u8, 114u8, 115u8, 105u8, 111u8, 110u8]
}

/// Whether the pattern stands in the text at position `i`.
pub open spec fn match_at(t: Seq<u8>, p: Seq<u8>, i: int) -> bool {
    0 <= i && i + p.len() <= t.len() && t.subrange(i, i + p.len() as int) == p
}

/// Index just after the pattern when it stands at `i`; -1 otherwise, and -1
/// is passed through.
pub open spec fn after_token(t: Seq<u8>, i: int, p: Seq<u8>) -> int {
    if i >= 0 && match_at(t, p, i) {
        i + p.len()
    } else {
        -1
    }
}

/// Index of the first byte at or after `i` that is not a space.
pub open spec fn space_end(t: Seq<u8>, i: int) -> int
    decreases (if i < t.len() { t.len() - i } else { 0 }),
{
    if 0 <= i && i < t.len() && t[i] == 32 {
        space_end(t, i + 1)
    } else {
        i
    }
}

/// Index after one or more spaces starting at `i`; -1 when `i` does not
/// stand on a space, and -1 is passed through.
pub open spec fn after_space1(t: Seq<u8>, i: int) -> int {
    if 0 <= i && i < t.len() && t[i] == 32 {
        space_end(t, i)
    } else {
        -1
    }
}

/// Index after zero or more spaces starting at `i`; -1 is passed through.
pub open spec fn after_space0(t: Seq<u8>, i: int) -> int {
    if i >= 0 {
        space_end(t, i)
    } else {
        -1
    }
}

/// Index just after the opening brace of the version-declaration header
/// when the header stands exactly at `i`; -1 otherwise. The header is the
/// token chain `pub const VERSION : RuntimeVersion = RuntimeVersion {`,
/// with at least one space between words and any number around the colon.
pub open spec fn header_body_start(t: Seq<u8>, i: int) -> int {
    let a = after_token(t, i, lit_pub());
    let b = after_token(t, after_space1(t, a), lit_const());
    let c = after_token(t, after_space1(t, b), lit_version_name());
    let d = after_token(t, after_space0(t, c), seq![58u8]);
    let e = after_token(t, after_space1(t, d), lit_runtime_version());
    let f = after_token(t, after_space1(t, e), seq![61u8]);
    let g = after_token(t, after_space1(t, f), lit_runtime_version());
    after_token(t, after_space1(t, g), seq![123u8])
}

/// Body start of the leftmost version-declaration header at or after
/// `from`; -1 when there is none.
pub open spec fn find_header(t: Seq<u8>, from: int) -> int
    decreases (if from < t.len() { t.len() - from } else { 0 }),
{
    if from < 0 || from >= t.len() {
        -1
    } else if header_body_start(t, from) >= 0 {
        header_body_start(t, from)
    } else {
        find_header(t, from + 1)
    }
}

/// First index at or after `from` where the pattern stands; -1 when none.
pub open spec fn find_pattern(t: Seq<u8>, p: Seq<u8>, from: int) -> int
    decreases (if from < t.len() { t.len() - from } else { 0 }),
{
    if from < 0 || from >= t.len() {
        -1
    } else if match_at(t, p, from) {
        from
    } else {
        find_pattern(t, p, from + 1)
    }
}

/// The version block: the bytes between the leftmost header's opening brace
/// and the first closing brace after at least one body byte; `None` when
/// the header or the closing brace is missing.
pub open spec fn block_of(t: Seq<u8>) -> Option<Seq<u8>> {
    let bs = find_header(t, 0);
    if bs < 0 {
        None
    } else {
        let ce = find_pattern(t, seq![125u8], bs + 1);
        if ce < 0 {
            None
        } else {
            Some(t.subrange(bs, ce))
        }
    }
}

/// Start of the quoted value of a string field whose pattern stands exactly
/// at `i`: the field name, a colon, the wrapping call and an opening quote;
/// -1 otherwise.
pub open spec fn name_value_start(t: Seq<u8>, name: Seq<u8>, i: int) -> int {
    let a = after_token(t, i, name);
    let b = after_token(t, after_space0(t, a), seq![58u8]);
    let c = after_token(t, after_space0(t, b), lit_create_runtime_str());
    after_token(t, after_space0(t, c), seq![40u8, 34u8])
}

/// The captured value of the string field whose pattern stands exactly at
/// `i`: at least one byte, running to the first closing `")`; `None`
/// otherwise.
pub open spec fn name_value_at(t: Seq<u8>, name: Seq<u8>, i: int) -> Option<Seq<u8>> {
    let vs = name_value_start(t, name, i);
    if vs < 0 {
        None
    } else {
        let ve = find_pattern(t, seq![34u8, 41u8], vs + 1);
        if ve < 0 {
            None
        } else {
            Some(t.subrange(vs, ve))
        }
    }
}

/// The captured value of the leftmost occurrence of the string field's
/// pattern at or after `from`; `None` when it never matches.
pub open spec fn find_name_value(t: Seq<u8>, name: Seq<u8>, from: int) -> Option<Seq<u8>>
    decreases (if from < t.len() { t.len() - from } else { 0 }),
{
    if from < 0 || from >= t.len() {
        None
    } else if name_value_at(t, name, from) is Some {
        name_value_at(t, name, from)
    } else {
        find_name_value(t, name, from + 1)
    }
}

/// Whether the byte is an ASCII digit.
pub open spec fn is_ascii_digit(c: u8) -> bool {
    48 <= c && c <= 57
}

/// Start of the digit run of an integer field whose pattern stands exactly
/// at `i`: the field name, a colon, then at least one digit; -1 otherwise.
pub open spec fn int_value_start(t: Seq<u8>, name: Seq<u8>, i: int) -> int {
    let a = after_token(t, i, name);
    let b = after_space0(t, after_token(t, after_space0(t, a), seq![58u8]));
    if b >= 0 && b < t.len() && is_ascii_digit(t[b]) {
        b
    } else {
        -1
    }
}

/// Index just after the digit run starting at `i`.
pub open spec fn digits_end(t: Seq<u8>, i: int) -> int
    decreases (if i < t.len() { t.len() - i } else { 0 }),
{
    if 0 <= i && i < t.len() && is_ascii_digit(t[i]) {
        digits_end(t, i + 1)
    } else {
        i
    }
}

/// The digit run of the leftmost occurrence of the integer field's pattern
/// at or after `from`; `None` when it never matches.
pub open spec fn find_int_digits(t: Seq<u8>, name: Seq<u8>, from: int) -> Option<Seq<u8>>
    decreases (if from < t.len() { t.len() - from } else { 0 }),
{
    if from < 0 || from >= t.len() {
        None
    } else if int_value_start(t, name, from) >= 0 {
        let vs = int_value_start(t, name, from);
        Some(t.subrange(vs, digits_end(t, vs)))
    } else {
        find_int_digits(t, name, from + 1)
    }
}

/// The unsigned value of a run of ASCII digits, most significant first.
pub open spec fn digits_val(s: Seq<u8>) -> nat
    decreases s.len(),
{
    if s.len() == 0 {
        0
    } else {
        digits_val(s.drop_last()) * 10 + (s.last() - 48) as nat
    }
}

/// What the extractor yields on the given source text: the version block is
/// located first, then each of the six fields is matched inside it, in
/// declared field order, the first failure deciding the error.
pub open spec fn extract_spec(t: Seq<u8>) -> Result<RuntimeVersionView, ExtractError> {
    match block_of(t) {
        None => Err(ExtractError::NotFound),
        Some(body) => match find_name_value(body, lit_spec_name(), 0) {
            None => Err(ExtractError::FieldNotFound(VersionField::SpecName)),
            Some(spec_name) => match find_name_value(body, lit_impl_name(), 0) {
                None => Err(ExtractError::FieldNotFound(VersionField::ImplName)),
                Some(impl_name) => match find_int_digits(body, lit_authoring_version(), 0) {
                    None => Err(ExtractError::FieldNotFound(VersionField::AuthoringVersion)),
                    Some(d1) => if digits_val(d1) > u32::MAX {
                        Err(ExtractError::MalformedInteger(VersionField::AuthoringVersion))
                    } else {
                        match find_int_digits(body, lit_spec_version(), 0) {
                            None => Err(ExtractError::FieldNotFound(VersionField::SpecVersion)),
                            Some(d2) => if digits_val(d2) > u32::MAX {
                                Err(ExtractError::MalformedInteger(VersionField::SpecVersion))
                            } else {
                                match find_int_digits(body, lit_impl_version(), 0) {
                                    None => Err(ExtractError::FieldNotFound(VersionField::ImplVersion)),
                                    Some(d3) => if digits_val(d3) > u32::MAX {
                                        Err(ExtractError::MalformedInteger(VersionField::ImplVersion))
                                    } else {
                                        match find_int_digits(body, lit_transaction_version(), 0) {
                                            None => Err(ExtractError::FieldNotFound(VersionField::TransactionVersion)),
                                            Some(d4) => if digits_val(d4) > u32::MAX {
                                                Err(ExtractError::MalformedInteger(VersionField::TransactionVersion))
                                            } else {
                                                Ok(RuntimeVersionView {
                                                    spec_name,
                                                    impl_name,
                                                    authoring_version: digits_val(d1) as u32,
                                                    spec_version: digits_val(d2) as u32,
                                                    impl_version: digits_val(d3) as u32,
                                                    transaction_version: digits_val(d4) as u32,
                                                })
                                            },
                                        }
                                    },
                                }
                            },
                        }
                    },
                },
            },
        },
    }
}


/// The digit value of a prefix never exceeds that of the whole run.
proof fn lemma_digits_val_prefix(s: Seq<u8>, j: int)
    requires
        0 <= j <= s.len(),
    ensures
        digits_val(s.subrange(0, j)) <= digits_val(s),
    decreases s.len() - j,
{
    if j == s.len() {
        assert(s.subrange(0, j) =~= s);
    } else {
        let a = s.subrange(0, j + 1);
        assert(a.drop_last() =~= s.subrange(0, j));
        assert(digits_val(a) == digits_val(s.subrange(0, j)) * 10 + (a.last() - 48) as nat);
        assert(digits_val(s.subrange(0, j)) * 10 >= digits_val(s.subrange(0, j)));
        lemma_digits_val_prefix(s, j + 1);
    }
}

/// The fixed byte patterns the extractor matches against.
struct Pats {
    pub_kw: Vec<u8>,
    const_kw: Vec<u8>,
    version_name: Vec<u8>,
    runtime_version: Vec<u8>,
    create_runtime_str: Vec<u8>,
    colon: Vec<u8>,
    eq_sign: Vec<u8>,
    brace_open: Vec<u8>,
    brace_close: Vec<u8>,
    paren_quote: Vec<u8>,
    quote_paren: Vec<u8>,
    spec_name: Vec<u8>,
    impl_name: Vec<u8>,
    authoring_version: Vec<u8>,
    spec_version: Vec<u8>,
    impl_version: Vec<u8>,
    transaction_version: Vec<u8>,
}

impl Pats {
    /// Each pattern holds exactly its literal's bytes.
    spec fn wf(&self) -> bool {
        &&& self.pub_kw@ == lit_pub()
        &&& self.const_kw@ == lit_const()
        &&& self.version_name@ == lit_version_name()
        &&& self.runtime_version@ == lit_runtime_version()
        &&& self.create_runtime_str@ == lit_create_runtime_str()
        &&& self.colon@ == seq![58u8]
        &&& self.eq_sign@ == seq![61u8]
        &&& self.brace_open@ == seq![123u8]
        &&& self.brace_close@ == seq![125u8]
        &&& self.paren_quote@ == seq![40u8, 34u8]
        &&& self.quote_paren@ == seq![34u8, 41u8]
        &&& self.spec_name@ == lit_spec_name()
        &&& self.impl_name@ == lit_impl_name()
        &&& self.authoring_version@ == lit_authoring_version()
        &&& self.spec_version@ == lit_spec_version()
        &&& self.impl_version@ == lit_impl_version()
        &&& self.transaction_version@ == lit_transaction_version()
    }

    fn new() -> (r: Self)
        ensures
            r.wf(),
    {
        let pub_kw: Vec<u8> = vec![112u8, 117u8, 98u8];
        let const_kw: Vec<u8> = vec![99u8, 111u8, 110u8, 115u8, 116u8];
        let version_name: Vec<u8> = vec![86u8, 69u8, 82u8, 83u8, 73u8, 79u8, 78u8];
        let runtime_version: Vec<u8> = vec![
            82u8, 117u8, 110u8, 116u8, 105u8, 109u8, 101u8, 86u8, 101u8, 114u8, 115u8, 105u8,
            111u8, 110u8,
        ];
        let create_runtime_str: Vec<u8> = vec![
            99u8, 114u8, 101u8, 97u8, 116u8, 101u8, 95u8, 114u8, 117u8, 110u8, 116u8, 105u8,
            109u8, 101u8, 95u8, 115u8, 116u8, 114u8, 33u8,
        ];
        let colon: Vec<u8> = vec![58u8];
        let eq_sign: Vec<u8> = vec![61u8];
        let brace_open: Vec<u8> = vec![123u8];
        let brace_close: Vec<u8> = vec![125u8];
        let paren_quote: Vec<u8> = vec![40u8, 34u8];
        let quote_paren: Vec<u8> = vec![34u8, 41u8];
        let spec_name: Vec<u8> = vec![115u8, 112u8, 101u8, 99u8, 95u8, 110u8, 97u8, 109u8, 101u8];
        let impl_name: Vec<u8> = vec![105u8, 109u8, 112u8, 108u8, 95u8, 110u8, 97u8, 109u8, 101u8];
        let authoring_version: Vec<u8> = vec![
            97u8, 117u8, 116u8, 104u8, 111u8, 114u8, 105u8, 110u8, 103u8, 95u8, 118u8, 101u8,
            114u8, 115u8, 105u8, 111u8, 110u8,
        ];
        let spec_version: Vec<u8> = vec![
            115u8, 112u8, 101u8, 99u8, 95u8, 118u8, 101u8, 114u8, 115u8, 105u8, 111u8, 110u8,
        ];
        let impl_version: Vec<u8> = vec![
            105u8, 109u8, 112u8, 108u8, 95u8, 118u8, 101u8, 114u8, 115u8, 105u8, 111u8, 110u8,
        ];
        let transaction_version: Vec<u8> = vec![
            116u8, 114u8, 97u8, 110u8, 115u8, 97u8, 99u8, 116u8, 105u8, 111u8, 110u8, 95u8,
            118u8, 101u8, 114u8, 115u8, 105u8, 111u8, 110u8,
        ];
        proof {
            assert_seqs_equal!(pub_kw@, lit_pub());
            assert_seqs_equal!(const_kw@, lit_const());
            assert_seqs_equal!(version_name@, lit_version_name());
            assert_seqs_equal!(runtime_version@, lit_runtime_version());
            assert_seqs_equal!(create_runtime_str@, lit_create_runtime_str());
            assert_seqs_equal!(colon@, seq![58u8]);
            assert_seqs_equal!(eq_sign@, seq![61u8]);
            assert_seqs_equal!(brace_open@, seq![123u8]);
            assert_seqs_equal!(brace_close@, seq![125u8]);
            assert_seqs_equal!(paren_quote@, seq![40u8, 34u8]);
            assert_seqs_equal!(quote_paren@, seq![34u8, 41u8]);
            assert_seqs_equal!(spec_name@, lit_spec_name());
            assert_seqs_equal!(impl_name@, lit_impl_name());
            assert_seqs_equal!(authoring_version@, lit_authoring_version());
            assert_seqs_equal!(spec_version@, lit_spec_version());
            assert_seqs_equal!(impl_version@, lit_impl_version());
            assert_seqs_equal!(transaction_version@, lit_transaction_version());
        }
        Pats {
            pub_kw,
            const_kw,
            version_name,
            runtime_version,
            create_runtime_str,
            colon,
            eq_sign,
            brace_open,
            brace_close,
            paren_quote,
            quote_paren,
            spec_name,
            impl_name,
            authoring_version,
            spec_version,
            impl_version,
            transaction_version,
        }
    }
}

/// Whether the pattern stands in the text at position `i`.
fn match_pattern_at(t: &[u8], p: &[u8], i: usize) -> (r: bool)
    ensures
        r == match_at(t@, p@, i as int),
{
    if i > t.len() || p.len() > t.len() - i {
        return false;
    }
    let mut j: usize = 0;
    while j < p.len()
        invariant
            i + p.len() <= t.len(),
            j <= p.len(),
            forall|k: int| 0 <= k < j ==> t@[i + k] == p@[k],
        decreases p.len() - j,
    {
        if t[i + j] != p[j] {
            proof {
                assert(t@.subrange(i as int, i + p@.len()) != p@) by {
                    assert(t@.subrange(i as int, i + p@.len())[j as int] == t@[i + j]);
                }
            }
            return false;
        }
        j = j + 1;
    }
    proof {
        assert_seqs_equal!(t@.subrange(i as int, i + p@.len()), p@);
    }
    true
}

/// First non-space position at or after `i`.
fn skip_spaces(t: &[u8], i: usize) -> (r: usize)
    requires
        i <= t@.len(),
    ensures
        r as int == space_end(t@, i as int),
        i <= r <= t@.len(),
{
    let mut r = i;
    while r < t.len() && t[r] == 32
        invariant
            i <= r <= t@.len(),
            space_end(t@, i as int) == space_end(t@, r as int),
        decreases t@.len() - r,
    {
        r = r + 1;
    }
    r
}

/// Position just after the digit run starting at `i`, with every byte of
/// the run known to be a digit.
fn skip_digits(t: &[u8], i: usize) -> (r: usize)
    requires
        i <= t@.len(),
    ensures
        r as int == digits_end(t@, i as int),
        i <= r <= t@.len(),
        forall|k: int| i <= k < r ==> is_ascii_digit(t@[k]),
    decreases t@.len() - i,
{
    let mut r = i;
    while r < t.len() && 48 <= t[r] && t[r] <= 57
        invariant
            i <= r <= t@.len(),
            digits_end(t@, i as int) == digits_end(t@, r as int),
            forall|k: int| i <= k < r ==> is_ascii_digit(t@[k]),
        decreases t@.len() - r,
    {
        r = r + 1;
    }
    r
}

/// The header's body start when the header stands exactly at `i`.
fn header_at(t: &[u8], i: usize, pats: &Pats) -> (r: Option<usize>)
    requires
        pats.wf(),
    ensures
        r matches Some(j) ==> header_body_start(t@, i as int) == j as int && j <= t@.len(),
        r is None ==> header_body_start(t@, i as int) == -1,
{
    let tlen = t.len();
    if !match_pattern_at(t, pats.pub_kw.as_slice(), i) {
        return None;
    }
    let a = i + pats.pub_kw.len();
    if a >= tlen || t[a] != 32 {
        return None;
    }
    let a2 = skip_spaces(t, a);
    if !match_pattern_at(t, pats.const_kw.as_slice(), a2) {
        return None;
    }
    let b = a2 + pats.const_kw.len();
    if b >= tlen || t[b] != 32 {
        return None;
    }
    let b2 = skip_spaces(t, b);
    if !match_pattern_at(t, pats.version_name.as_slice(), b2) {
        return None;
    }
    let c = b2 + pats.version_name.len();
    let c2 = skip_spaces(t, c);
    if !match_pattern_at(t, pats.colon.as_slice(), c2) {
        return None;
    }
    let d = c2 + pats.colon.len();
    if d >= tlen || t[d] != 32 {
        return None;
    }
    let d2 = skip_spaces(t, d);
    if !match_pattern_at(t, pats.runtime_version.as_slice(), d2) {
        return None;
    }
    let e = d2 + pats.runtime_version.len();
    if e >= tlen || t[e] != 32 {
        return None;
    }
    let e2 = skip_spaces(t, e);
    if !match_pattern_at(t, pats.eq_sign.as_slice(), e2) {
        return None;
    }
    let f = e2 + pats.eq_sign.len();
    if f >= tlen || t[f] != 32 {
        return None;
    }
    let f2 = skip_spaces(t, f);
    if !match_pattern_at(t, pats.runtime_version.as_slice(), f2) {
        return None;
    }
    let g = f2 + pats.runtime_version.len();
    if g >= tlen || t[g] != 32 {
        return None;
    }
    let g2 = skip_spaces(t, g);
    if !match_pattern_at(t, pats.brace_open.as_slice(), g2) {
        return None;
    }
    Some(g2 + pats.brace_open.len())
}

/// Body start of the leftmost header in the text.
fn find_header_exec(t: &[u8], pats: &Pats) -> (r: Option<usize>)
    requires
        pats.wf(),
    ensures
        r matches Some(j) ==> find_header(t@, 0) == j as int && j <= t@.len(),
        r is None ==> find_header(t@, 0) == -1,
{
    let mut i: usize = 0;
    while i < t.len()
        invariant
            pats.wf(),
            i <= t@.len(),
            find_header(t@, 0) == find_header(t@, i as int),
        decreases t@.len() - i,
    {
        match header_at(t, i, pats) {
            Some(j) => {
                return Some(j);
            },
            None => {},
        }
        i = i + 1;
    }
    None
}

/// First position at or after `from` where the pattern stands.
fn find_pattern_exec(t: &[u8], p: &[u8], from: usize) -> (r: Option<usize>)
    ensures
        r matches Some(j) ==> find_pattern(t@, p@, from as int) == j as int && from <= j
            && match_at(t@, p@, j as int),
        r is None ==> find_pattern(t@, p@, from as int) == -1,
{
    let mut i = from;
    while i < t.len()
        invariant
            from <= i,
            find_pattern(t@, p@, from as int) == find_pattern(t@, p@, i as int),
        decreases t@.len() - i,
    {
        if match_pattern_at(t, p, i) {
            return Some(i);
        }
        i = i + 1;
    }
    None
}

/// The capture bounds of the string field's pattern standing exactly at
/// `i`.
fn name_value_at_exec(t: &[u8], name: &[u8], pats: &Pats, i: usize) -> (r: Option<(usize, usize)>)
    requires
        pats.wf(),
    ensures
        r matches Some(v) ==> name_value_at(t@, name@, i as int)
            == Some(t@.subrange(v.0 as int, v.1 as int)) && v.0 <= v.1 <= t@.len(),
        r is None ==> name_value_at(t@, name@, i as int) is None,
{
    let tlen = t.len();
    if !match_pattern_at(t, name, i) {
        return None;
    }
    let a = i + name.len();
    let a2 = skip_spaces(t, a);
    if !match_pattern_at(t, pats.colon.as_slice(), a2) {
        return None;
    }
    let b = a2 + pats.colon.len();
    let b2 = skip_spaces(t, b);
    if !match_pattern_at(t, pats.create_runtime_str.as_slice(), b2) {
        return None;
    }
    let c = b2 + pats.create_runtime_str.len();
    let c2 = skip_spaces(t, c);
    if !match_pattern_at(t, pats.paren_quote.as_slice(), c2) {
        return None;
    }
    let vs = c2 + pats.paren_quote.len();
    if vs >= tlen {
        proof {
            assert(find_pattern(t@, seq![34u8, 41u8], vs + 1) == -1);
        }
        return None;
    }
    match find_pattern_exec(t, pats.quote_paren.as_slice(), vs + 1) {
        Some(ve) => Some((vs, ve)),
        None => None,
    }
}

/// The capture bounds of the leftmost string-field match at or after 0.
fn find_name_value_exec(t: &[u8], name: &[u8], pats: &Pats) -> (r: Option<(usize, usize)>)
    requires
        pats.wf(),
    ensures
        r matches Some(v) ==> find_name_value(t@, name@, 0)
            == Some(t@.subrange(v.0 as int, v.1 as int)) && v.0 <= v.1 <= t@.len(),
        r is None ==> find_name_value(t@, name@, 0) is None,
{
    let mut i: usize = 0;
    while i < t.len()
        invariant
            pats.wf(),
            i <= t@.len(),
            find_name_value(t@, name@, 0) == find_name_value(t@, name@, i as int),
        decreases t@.len() - i,
    {
        match name_value_at_exec(t, name, pats, i) {
            Some(v) => {
                return Some(v);
            },
            None => {},
        }
        i = i + 1;
    }
    None
}

/// The digit-run start of the integer field's pattern standing exactly at
/// `i`.
fn int_value_start_exec(t: &[u8], name: &[u8], pats: &Pats, i: usize) -> (r: Option<usize>)
    requires
        pats.wf(),
    ensures
        r matches Some(v) ==> int_value_start(t@, name@, i as int) == v as int && v < t@.len(),
        r is None ==> int_value_start(t@, name@, i as int) == -1,
{
    let tlen = t.len();
    if !match_pattern_at(t, name, i) {
        return None;
    }
    let a = i + name.len();
    let a2 = skip_spaces(t, a);
    if !match_pattern_at(t, pats.colon.as_slice(), a2) {
        return None;
    }
    let b = a2 + pats.colon.len();
    let b2 = skip_spaces(t, b);
    if b2 >= tlen {
        return None;
    }
    let d = t[b2];
    if 48 <= d && d <= 57 {
        Some(b2)
    } else {
        None
    }
}

/// The digit-run bounds of the leftmost integer-field match at or after 0.
fn find_int_digits_exec(t: &[u8], name: &[u8], pats: &Pats) -> (r: Option<(usize, usize)>)
    requires
        pats.wf(),
    ensures
        r matches Some(v) ==> find_int_digits(t@, name@, 0)
            == Some(t@.subrange(v.0 as int, v.1 as int)) && v.0 <= v.1 <= t@.len()
            && (forall|k: int| v.0 <= k < v.1 ==> is_ascii_digit(t@[k])),
        r is None ==> find_int_digits(t@, name@, 0) is None,
{
    let mut i: usize = 0;
    while i < t.len()
        invariant
            pats.wf(),
            i <= t@.len(),
            find_int_digits(t@, name@, 0) == find_int_digits(t@, name@, i as int),
        decreases t@.len() - i,
    {
        match int_value_start_exec(t, name, pats, i) {
            Some(vs) => {
                let ve = skip_digits(t, vs);
                return Some((vs, ve));
            },
            None => {},
        }
        i = i + 1;
    }
    None
}

/// The unsigned 32-bit value of a run of ASCII digits; `None` when the run
/// overflows the field's width.
fn parse_u32(s: &[u8]) -> (r: Option<u32>)
    requires
        forall|j: int| 0 <= j < s@.len() ==> is_ascii_digit(s@[j]),
    ensures
        r matches Some(v) ==> digits_val(s@) <= u32::MAX && v as nat == digits_val(s@),
        r is None ==> digits_val(s@) > u32::MAX,
{
    let mut acc: u64 = 0;
    let mut i: usize = 0;
    while i < s.len()
        invariant
            forall|j: int| 0 <= j < s@.len() ==> is_ascii_digit(s@[j]),
            i <= s@.len(),
            acc as nat == digits_val(s@.subrange(0, i as int)),
            acc <= u32::MAX,
        decreases s@.len() - i,
    {
        let d = (s[i] - 48) as u64;
        let acc2 = acc * 10 + d;
        proof {
            let a = s@.subrange(0, i + 1 as int);
            assert(a.drop_last() =~= s@.subrange(0, i as int));
            assert(a.last() == s@[i as int]);
            assert(acc2 as nat == digits_val(a));
        }
        if acc2 > 0xFFFF_FFFFu64 {
            proof {
                lemma_digits_val_prefix(s@, i + 1);
            }
            return None;
        }
        acc = acc2;
        i = i + 1;
    }
    proof {
        assert(s@.subrange(0, s@.len() as int) =~= s@);
    }
    Some(acc as u32)
}

/// Extract the six-field version descriptor out of raw source text.
///
/// The version block is located first (failing with `NotFound` when it is
/// missing), then each field's pattern is applied inside it in declared
/// field order; a field whose pattern never matches fails with
/// `FieldNotFound`, and an integer field whose digits overflow its width
/// with `MalformedInteger`.
pub fn extract_runtime_version(text: &[u8]) -> (r: Result<RuntimeVersion, ExtractError>)
    ensures
        extract_spec(text@) matches Err(e) ==> r matches Err(e2) && e2 == e,
        extract_spec(text@) matches Ok(w) ==> r matches Ok(v) && v@ == w,
{
    let pats = Pats::new();
    let bs = match find_header_exec(text, &pats) {
        Some(bs) => bs,
        None => {
            return Err(ExtractError::NotFound);
        },
    };
    let ce = if bs < text.len() {
        match find_pattern_exec(text, pats.brace_close.as_slice(), bs + 1) {
            Some(ce) => ce,
            None => {
                return Err(ExtractError::NotFound);
            },
        }
    } else {
        proof {
            assert(find_pattern(text@, seq![125u8], bs + 1) == -1);
        }
        return Err(ExtractError::NotFound);
    };
    let body = slice_subrange(text, bs, ce);
    let ghost bodyv = block_of(text@)->Some_0;
    proof {
        assert(body@ == bodyv);
    }

    let (sn_s, sn_e) = match find_name_value_exec(body, pats.spec_name.as_slice(), &pats) {
        Some(v) => v,
        None => {
            return Err(ExtractError::FieldNotFound(VersionField::SpecName));
        },
    };
    let (in_s, in_e) = match find_name_value_exec(body, pats.impl_name.as_slice(), &pats) {
        Some(v) => v,
        None => {
            return Err(ExtractError::FieldNotFound(VersionField::ImplName));
        },
    };
    let (av_s, av_e) = match find_int_digits_exec(body, pats.authoring_version.as_slice(), &pats) {
        Some(v) => v,
        None => {
            return Err(ExtractError::FieldNotFound(VersionField::AuthoringVersion));
        },
    };
    let authoring_version = match parse_u32(slice_subrange(body, av_s, av_e)) {
        Some(v) => v,
        None => {
            return Err(ExtractError::MalformedInteger(VersionField::AuthoringVersion));
        },
    };
    let (sv_s, sv_e) = match find_int_digits_exec(body, pats.spec_version.as_slice(), &pats) {
        Some(v) => v,
        None => {
            return Err(ExtractError::FieldNotFound(VersionField::SpecVersion));
        },
    };
    let spec_version = match parse_u32(slice_subrange(body, sv_s, sv_e)) {
        Some(v) => v,
        None => {
            return Err(ExtractError::MalformedInteger(VersionField::SpecVersion));
        },
    };
    let (iv_s, iv_e) = match find_int_digits_exec(body, pats.impl_version.as_slice(), &pats) {
        Some(v) => v,
        None => {
            return Err(ExtractError::FieldNotFound(VersionField::ImplVersion));
        },
    };
    let impl_version = match parse_u32(slice_subrange(body, iv_s, iv_e)) {
        Some(v) => v,
        None => {
            return Err(ExtractError::MalformedInteger(VersionField::ImplVersion));
        },
    };
    let (tv_s, tv_e) = match find_int_digits_exec(body, pats.transaction_version.as_slice(), &pats) {
        Some(v) => v,
        None => {
            return Err(ExtractError::FieldNotFound(VersionField::TransactionVersion));
        },
    };
    let transaction_version = match parse_u32(slice_subrange(body, tv_s, tv_e)) {
        Some(v) => v,
        None => {
            return Err(ExtractError::MalformedInteger(VersionField::TransactionVersion));
        },
    };

    let result = RuntimeVersion {
        spec_name: slice_to_vec(slice_subrange(body, sn_s, sn_e)),
        impl_name: slice_to_vec(slice_subrange(body, in_s, in_e)),
        authoring_version,
        spec_version,
        impl_version,
        transaction_version,
    };
    proof {
        let w = extract_spec(text@)->Ok_0;
        assert(result@ =~= w);
    }
    Ok(result)
}

} // verus!
