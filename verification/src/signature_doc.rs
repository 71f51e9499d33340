//! The YAML signature document: its fields, the bounded top-level key scan,
//! and the canonical serializer.
//!
//! Parsing a document into [`SignatureDocument`] is done by a YAML parser
//! outside this library; the byte budget and UTF-8 checks that precede it
//! are here.

use vstd::prelude::*;
use vstd::slice::slice_to_vec;
use vstd::utf8::{decode_utf8, encode_utf8, valid_utf8};
use crate::algorithm::{algorithm_of_yaml_chars, str_eq, AlgorithmId, SCHEMA_V1ALPHA1};
use crate::error::CoreError;
use crate::external::{
    base64_url_decode, base64_url_nopad_decoding, chars_of, parse_yaml_string, push_char,
    str_from_utf8, string_of_chars, yaml_string_document,
};

verus! {

/// Byte budget of one signature document.
pub const SIGNATURE_DOCUMENT_MAX_BYTES: usize = 16384;

/// Parser nesting-depth budget.
pub const SIGNATURE_DOCUMENT_MAX_DEPTH: usize = 16;

/// Parser alias-expansion budget.
pub const SIGNATURE_DOCUMENT_MAX_ALIAS_EXPANSIONS: usize = 0;

/// Parser mapping-key budget.
pub const SIGNATURE_DOCUMENT_MAX_MAPPING_KEYS: usize = 8;

/// Parser sequence-length budget.
pub const SIGNATURE_DOCUMENT_MAX_SEQUENCE_LENGTH: usize = 16;

/// Parser event budget.
pub const SIGNATURE_DOCUMENT_MAX_EVENTS: usize = 128;

/// Parser node budget.
pub const SIGNATURE_DOCUMENT_MAX_NODES: usize = 64;

/// Parser cumulative scalar-byte budget.
pub const SIGNATURE_DOCUMENT_MAX_TOTAL_SCALAR_BYTES: usize = 8192;

/// Parser document budget.
pub const SIGNATURE_DOCUMENT_MAX_DOCUMENTS: usize = 1;

/// Parser merge-key budget.
pub const SIGNATURE_DOCUMENT_MAX_MERGE_KEYS: usize = 8;

/// Parsed `YamlSigilSignature.v1alpha1` YAML mapping (transport form).
#[derive(Debug, Clone, PartialEq, Eq)]
pub struct SignatureDocument {
    pub schema: String,
    pub alg: String,
    pub keyid: Option<String>,
    pub signature: String,
}

/// The diagnostic of an over-budget signature carrier.
pub open spec fn over_budget_message() -> Seq<char> {
    "signature carrier exceeds the maximum supported byte length"@
}

/// The diagnostic of a noncanonical `alg` value.
pub open spec fn noncanonical_alg_message() -> Seq<char> {
    "signature document alg is not a canonical v1alpha1 algorithm"@
}

impl SignatureDocument {
    /// Check that `schema` is exactly the v1alpha1 schema identifier.
    pub fn validate_schema(&self) -> (r: Result<(), CoreError>)
        ensures
            r == if self.schema@ == SCHEMA_V1ALPHA1@ {
                Ok::<(), CoreError>(())
            } else {
                Err::<(), CoreError>(CoreError::SchemaMismatch)
            },
    {
        if !str_eq(self.schema.as_str(), SCHEMA_V1ALPHA1) {
            return Err(CoreError::SchemaMismatch);
        }
        Ok(())
    }
}

/// Reject a carrier over the signature-document byte budget.
pub fn ensure_signature_document_byte_budget(bytes: &[u8]) -> (r: Result<(), CoreError>)
    ensures
        bytes@.len() <= SIGNATURE_DOCUMENT_MAX_BYTES ==> r is Ok,
        bytes@.len() > SIGNATURE_DOCUMENT_MAX_BYTES ==> (r matches Err(CoreError::SignatureYaml(m))
            && m@ == over_budget_message()),
{
    if bytes.len() > SIGNATURE_DOCUMENT_MAX_BYTES {
        return Err(
            CoreError::SignatureYaml(
                String::from_str("signature carrier exceeds the maximum supported byte length"),
            ),
        );
    }
    Ok(())
}

/// The text of a signature carrier that is to be parsed as a signature
/// document: the byte budget is checked first, then UTF-8.
pub fn signature_document_text(bytes: &[u8]) -> (r: Result<String, CoreError>)
    ensures
        bytes@.len() > SIGNATURE_DOCUMENT_MAX_BYTES ==> (r matches Err(CoreError::SignatureYaml(m))
            && m@ == over_budget_message()),
        bytes@.len() <= SIGNATURE_DOCUMENT_MAX_BYTES && !valid_utf8(bytes@) ==> r == Err::<
            String,
            CoreError,
        >(CoreError::InvalidUtf8),
        bytes@.len() <= SIGNATURE_DOCUMENT_MAX_BYTES && valid_utf8(bytes@) ==> (r matches Ok(t) && t@
            == decode_utf8(bytes@)),
{
    match ensure_signature_document_byte_budget(bytes) {
        Err(e) => return Err(e),
        Ok(()) => {},
    }
    match str_from_utf8(bytes) {
        Some(t) => Ok(String::from_str(t)),
        None => Err(CoreError::InvalidUtf8),
    }
}

/// The diagnostic of a carrier that holds other than one YAML document.
pub open spec fn document_count_message() -> Seq<char> {
    "signature carrier must contain exactly one YAML document"@
}

/// Check the parser's document count for a signature carrier: the load
/// error, if any, is reported as its text; exactly one document is
/// required.
pub fn check_signature_document_count(documents: Result<usize, String>) -> (r: Result<(), CoreError>)
    ensures
        match documents {
            Err(m) => r == Err::<(), CoreError>(CoreError::SignatureYaml(m)),
            Ok(n) => if n == 1 {
                r is Ok
            } else {
                r matches Err(CoreError::SignatureYaml(m)) && m@ == document_count_message()
            },
        },
{
    match documents {
        Err(m) => Err(CoreError::SignatureYaml(m)),
        Ok(n) => if n == 1 {
            Ok(())
        } else {
            Err(
                CoreError::SignatureYaml(
                    String::from_str("signature carrier must contain exactly one YAML document"),
                ),
            )
        },
    }
}

/// Whether `c` is white space in the Unicode sense that `str::trim` uses.
pub open spec fn is_unicode_whitespace(c: char) -> bool {
    let v = c as u32;
    (0x09 <= v && v <= 0x0D) || v == 0x20 || v == 0x85 || v == 0xA0 || v == 0x1680 || (0x2000
        <= v && v <= 0x200A) || v == 0x2028 || v == 0x2029 || v == 0x202F || v == 0x205F || v
        == 0x3000
}

/// Whether `c` is Unicode white space.
pub fn is_whitespace(c: char) -> (r: bool)
    ensures
        r == is_unicode_whitespace(c),
{
    let v = c as u32;
    (0x09 <= v && v <= 0x0D) || v == 0x20 || v == 0x85 || v == 0xA0 || v == 0x1680 || (0x2000
        <= v && v <= 0x200A) || v == 0x2028 || v == 0x2029 || v == 0x202F || v == 0x205F || v
        == 0x3000
}

/// The first index at or after `i` that is not white space.
pub open spec fn ws_end(s: Seq<char>, i: int) -> int
    decreases s.len() - i,
{
    if 0 <= i < s.len() && is_unicode_whitespace(s[i]) {
        ws_end(s, i + 1)
    } else {
        i
    }
}

/// Moving back from `j` over white space, but not below `lo`.
pub open spec fn ws_back(s: Seq<char>, lo: int, j: int) -> int
    decreases j - lo,
{
    if lo < j && j <= s.len() && is_unicode_whitespace(s[j - 1]) {
        ws_back(s, lo, j - 1)
    } else {
        j
    }
}

/// The first index at or after `i` holding `ch`.
pub open spec fn find_char(s: Seq<char>, i: int, ch: char) -> Option<int>
    decreases s.len() - i,
{
    if i < 0 || i >= s.len() {
        None
    } else if s[i] == ch {
        Some(i)
    } else {
        find_char(s, i + 1, ch)
    }
}

/// The value of a key written as a quoted scalar starting at `a`: the text
/// between the quotes, where the closing quote is followed (after white
/// space) by `:`. A double-quoted key holding an escape is not taken here.
pub open spec fn quoted_key(line: Seq<char>, a: int) -> Option<Seq<char>> {
    if 0 <= a < line.len() && (line[a] == '"' || line[a] == '\'') {
        match find_char(line, a + 1, line[a]) {
            None => None,
            Some(q) => {
                let inner = line.subrange(a + 1, q);
                let c = ws_end(line, q + 1);
                if (line[a] == '"' && inner.contains('\\')) || c >= line.len() || line[c] != ':' {
                    None
                } else {
                    Some(inner)
                }
            },
        }
    } else {
        None
    }
}

/// The top-level key on one line: skip blank, comment, and indented lines;
/// a key written as a quoted scalar is its value, any other key is the
/// white-space-trimmed text before the first `:`.
pub open spec fn line_key(line: Seq<char>) -> Option<Seq<char>> {
    let a = ws_end(line, 0);
    if a >= line.len() || line[a] == '#' {
        None
    } else if line[0] == ' ' || line[0] == '\t' {
        None
    } else if quoted_key(line, a) is Some {
        quoted_key(line, a)
    } else {
        match find_char(line, a, ':') {
            None => None,
            Some(c) => {
                let e = ws_back(line, a, c);
                if e <= a {
                    None
                } else {
                    Some(line.subrange(a, e))
                }
            },
        }
    }
}

/// The end of the line starting at `i`: the next LF or the end of text.
pub open spec fn line_end(text: Seq<char>, i: int) -> int {
    match find_char(text, i, '\n') {
        Some(e) => e,
        None => text.len() as int,
    }
}

/// The keys of the lines from `i` on, in line order (repeats included).
pub open spec fn keys_from(text: Seq<char>, i: int) -> Seq<Seq<char>>
    decreases text.len() - i,
{
    if i < 0 || i >= text.len() {
        Seq::empty()
    } else {
        let e = line_end(text, i);
        if e < i || e > text.len() {
            Seq::empty()
        } else {
            let rest = if e < text.len() {
                keys_from(text, e + 1)
            } else {
                Seq::empty()
            };
            match line_key(text.subrange(i, e)) {
                Some(k) => seq![k] + rest,
                None => rest,
            }
        }
    }
}

/// The keys of a flat YAML mapping text.
pub open spec fn top_level_keys_of(text: Seq<char>) -> Seq<Seq<char>> {
    keys_from(text, 0)
}

/// Whether `key` is one of the four Tier A top-level keys.
pub open spec fn is_tier_a_key(key: Seq<char>) -> bool {
    key == "schema"@ || key == "alg"@ || key == "keyid"@ || key == "signature"@
}

proof fn lemma_find_char_bounds(s: Seq<char>, i: int, ch: char)
    ensures
        find_char(s, i, ch) matches Some(k) ==> i <= k < s.len() && s[k] == ch,
    decreases s.len() - i,
{
    if 0 <= i < s.len() && s[i] != ch {
        lemma_find_char_bounds(s, i + 1, ch);
    }
}

proof fn lemma_ws_end_bounds(s: Seq<char>, i: int)
    requires
        0 <= i <= s.len(),
    ensures
        i <= ws_end(s, i) <= s.len(),
    decreases s.len() - i,
{
    if i < s.len() && is_unicode_whitespace(s[i]) {
        lemma_ws_end_bounds(s, i + 1);
    }
}

proof fn lemma_ws_back_bounds(s: Seq<char>, lo: int, j: int)
    requires
        lo <= j,
    ensures
        lo <= ws_back(s, lo, j) <= j,
    decreases j - lo,
{
    if lo < j && j <= s.len() && is_unicode_whitespace(s[j - 1]) {
        lemma_ws_back_bounds(s, lo, j - 1);
    }
}

/// The value of a quoted key starting at `a`, as [`quoted_key`] states.
fn quoted_key_exec(line: &[char], a: usize) -> (r: Option<Vec<char>>)
    requires
        a < line.len(),
    ensures
        match r {
            Some(k) => quoted_key(line@, a as int) == Some(k@),
            None => quoted_key(line@, a as int) is None,
        },
{
    let quote = line[a];
    if quote != '"' && quote != '\'' {
        return None;
    }
    let mut q: usize = a + 1;
    let mut escaped = false;
    while q < line.len() && line[q] != quote
        invariant
            a < q <= line.len(),
            quote == line@[a as int],
            find_char(line@, a + 1, quote) == find_char(line@, q as int, quote),
            escaped <==> line@.subrange(a + 1, q as int).contains('\\'),
        decreases line.len() - q,
    {
        proof {
            let before = line@.subrange(a + 1, q as int);
            let after = line@.subrange(a + 1, q + 1);
            assert(after =~= before.push(line@[q as int]));
            if before.contains('\\') {
                let i = choose|i: int| 0 <= i < before.len() && before[i] == '\\';
                assert(after[i] == '\\');
            }
            if line@[q as int] == '\\' {
                assert(after[before.len() as int] == '\\');
            }
            if after.contains('\\') {
                let i = choose|i: int| 0 <= i < after.len() && after[i] == '\\';
                if i < before.len() {
                    assert(before[i] == '\\');
                }
            }
        }
        if line[q] == '\\' {
            escaped = true;
        }
        q = q + 1;
    }
    if q >= line.len() {
        return None;
    }
    if quote == '"' && escaped {
        return None;
    }
    let mut c: usize = q + 1;
    while c < line.len() && is_whitespace(line[c])
        invariant
            q + 1 <= c <= line.len(),
            ws_end(line@, q + 1) == ws_end(line@, c as int),
        decreases line.len() - c,
    {
        c = c + 1;
    }
    if c >= line.len() || line[c] != ':' {
        return None;
    }
    Some(slice_to_vec(&line[a + 1..q]))
}

/// The key of one line.
fn line_key_exec(line: &[char]) -> (r: Option<Vec<char>>)
    ensures
        match r {
            Some(k) => line_key(line@) == Some(k@),
            None => line_key(line@) is None,
        },
{
    let mut a: usize = 0;
    while a < line.len() && is_whitespace(line[a])
        invariant
            a <= line.len(),
            ws_end(line@, 0) == ws_end(line@, a as int),
        decreases line.len() - a,
    {
        a = a + 1;
    }
    if a >= line.len() || line[a] == '#' {
        return None;
    }
    if line[0] == ' ' || line[0] == '\t' {
        return None;
    }
    match quoted_key_exec(line, a) {
        Some(k) => return Some(k),
        None => {},
    }
    let mut c: usize = a;
    while c < line.len() && line[c] != ':'
        invariant
            a <= c <= line.len(),
            find_char(line@, a as int, ':') == find_char(line@, c as int, ':'),
        decreases line.len() - c,
    {
        c = c + 1;
    }
    if c >= line.len() {
        return None;
    }
    let mut e: usize = c;
    while e > a && is_whitespace(line[e - 1])
        invariant
            a <= e <= c,
            c < line.len(),
            ws_back(line@, a as int, c as int) == ws_back(line@, a as int, e as int),
        decreases e,
    {
        e = e - 1;
    }
    if e <= a {
        return None;
    }
    Some(slice_to_vec(&line[a..e]))
}

proof fn lemma_cons_contains<A>(k: A, rest: Seq<A>, q: A)
    ensures
        (seq![k] + rest).contains(q) <==> (q == k || rest.contains(q)),
{
    let s = seq![k] + rest;
    if rest.contains(q) {
        let j = choose|j: int| 0 <= j < rest.len() && rest[j] == q;
        assert(s[j + 1] == q);
    }
    if s.contains(q) && q != k {
        let j = choose|j: int| 0 <= j < s.len() && s[j] == q;
        assert(rest[j - 1] == q);
    }
    if q == k {
        assert(s[0] == q);
    }
}

proof fn lemma_push_contains<A>(s: Seq<A>, k: A, q: A)
    ensures
        s.push(k).contains(q) <==> (s.contains(q) || q == k),
{
    let t = s.push(k);
    if s.contains(q) {
        let j = choose|j: int| 0 <= j < s.len() && s[j] == q;
        assert(t[j] == q);
    }
    if q == k {
        assert(t[s.len() as int] == q);
    }
}

proof fn lemma_push_no_duplicates<A>(s: Seq<A>, k: A)
    requires
        s.no_duplicates(),
        !s.contains(k),
    ensures
        s.push(k).no_duplicates(),
{
    let t = s.push(k);
    assert forall|a: int, b: int| 0 <= a < t.len() && 0 <= b < t.len() && a != b implies t[a]
        != t[b] by {
        if a == s.len() as int {
            assert(s[b] == t[b]);
        } else if b == s.len() as int {
            assert(s[a] == t[a]);
        }
    }
}

/// Whether `keys` already holds `k`.
fn contains_key(keys: &Vec<String>, k: &String) -> (r: bool)
    ensures
        r == keys.deep_view().contains(k@),
{
    let mut i: usize = 0;
    while i < keys.len()
        invariant
            i <= keys.len(),
            forall|j: int| 0 <= j < i ==> keys.deep_view()[j] != k@,
        decreases keys.len() - i,
    {
        if keys[i] == *k {
            assert(keys.deep_view()[i as int] == k@);
            return true;
        }
        i = i + 1;
    }
    false
}

/// Top-level keys of a flat YAML mapping, each once, in order of first
/// occurrence.
fn top_level_keys_flat_line_scan(text: &str) -> (r: Vec<String>)
    ensures
        r.deep_view().no_duplicates(),
        r.deep_view().to_set() == top_level_keys_of(text@).to_set(),
{
    let chars = chars_of(text);
    let ghost t = text@;
    let mut keys: Vec<String> = Vec::new();
    let mut i: usize = 0;
    while i < chars.len()
        invariant
            chars@ == t,
            keys.deep_view().no_duplicates(),
            forall|k: Seq<char>|
                #![trigger keys_from(t, 0).contains(k)]
                keys_from(t, 0).contains(k) <==> (keys.deep_view().contains(k) || keys_from(
                    t,
                    i as int,
                ).contains(k)),
        decreases chars.len() - i,
    {
        let mut e: usize = i;
        while e < chars.len() && chars[e] != '\n'
            invariant
                i <= e <= chars.len(),
                find_char(chars@, i as int, '\n') == find_char(chars@, e as int, '\n'),
            decreases chars.len() - e,
        {
            e = e + 1;
        }
        proof {
            lemma_find_char_bounds(t, i as int, '\n');
        }
        assert(line_end(t, i as int) == e);
        let line = slice_to_vec(&chars.as_slice()[i..e]);
        let ghost rest: Seq<Seq<char>> = if (e as int) < t.len() {
            keys_from(t, e + 1)
        } else {
            Seq::empty()
        };
        assert(keys_from(t, i as int) == match line_key(t.subrange(i as int, e as int)) {
            Some(k) => seq![k] + rest,
            None => rest,
        });
        let ghost old_keys = keys.deep_view();
        match line_key_exec(line.as_slice()) {
            Some(k) => {
                let key = string_of_chars(k.as_slice());
                if !contains_key(&keys, &key) {
                    keys.push(key);
                    assert(keys.deep_view() =~= old_keys.push(key@));
                    proof {
                        lemma_push_no_duplicates(old_keys, key@);
                    }
                }
                assert forall|q: Seq<char>|
                    #![trigger keys_from(t, 0).contains(q)]
                    keys_from(t, 0).contains(q) <==> (keys.deep_view().contains(q)
                        || rest.contains(q)) by {
                    lemma_cons_contains(key@, rest, q);
                    lemma_push_contains(old_keys, key@, q);
                }
            },
            None => {},
        }
        let next = if e < chars.len() {
            e + 1
        } else {
            chars.len()
        };
        assert(keys_from(t, next as int) == rest);
        i = next;
    }
    assert forall|k: Seq<char>| #[trigger] keys.deep_view().to_set().contains(k) <==> keys_from(
        t,
        0,
    ).to_set().contains(k) by {
        assert(keys_from(t, 0).contains(k) == keys_from(t, 0).to_set().contains(k));
    }
    assert(keys.deep_view().to_set() =~= keys_from(t, 0).to_set());
    keys
}

/// Enumerate top-level mapping keys of a signature-document fragment,
/// bounded by the same byte budget as the parser.
pub fn signature_document_top_level_keys(bytes: &[u8]) -> (r: Result<Vec<String>, CoreError>)
    ensures
        bytes@.len() > SIGNATURE_DOCUMENT_MAX_BYTES ==> (r matches Err(CoreError::SignatureYaml(m))
            && m@ == over_budget_message()),
        bytes@.len() <= SIGNATURE_DOCUMENT_MAX_BYTES && !valid_utf8(bytes@) ==> r == Err::<
            Vec<String>,
            CoreError,
        >(CoreError::InvalidUtf8),
        bytes@.len() <= SIGNATURE_DOCUMENT_MAX_BYTES && valid_utf8(bytes@) ==> (r matches Ok(keys)
            && keys.deep_view().no_duplicates() && keys.deep_view().to_set() == top_level_keys_of(
            decode_utf8(bytes@),
        ).to_set()),
{
    match ensure_signature_document_byte_budget(bytes) {
        Err(e) => return Err(e),
        Ok(()) => {},
    }
    let text = match str_from_utf8(bytes) {
        Some(t) => t,
        None => return Err(CoreError::InvalidUtf8),
    };
    Ok(top_level_keys_flat_line_scan(text))
}

/// Whether a key is one of the four Tier A top-level keys.
pub fn is_tier_a_top_level_key(key: &str) -> (r: bool)
    ensures
        r == is_tier_a_key(key@),
{
    str_eq(key, "schema") || str_eq(key, "alg") || str_eq(key, "keyid") || str_eq(key, "signature")
}

/// True when `bytes` has a top-level key outside the four Tier A keys.
pub fn has_unknown_signature_document_fields(bytes: &[u8]) -> (r: Result<bool, CoreError>)
    ensures
        bytes@.len() > SIGNATURE_DOCUMENT_MAX_BYTES ==> (r matches Err(CoreError::SignatureYaml(m))
            && m@ == over_budget_message()),
        bytes@.len() <= SIGNATURE_DOCUMENT_MAX_BYTES && !valid_utf8(bytes@) ==> r == Err::<
            bool,
            CoreError,
        >(CoreError::InvalidUtf8),
        bytes@.len() <= SIGNATURE_DOCUMENT_MAX_BYTES && valid_utf8(bytes@) ==> r == Ok::<
            bool,
            CoreError,
        >(
            exists|k: Seq<char>|
                #[trigger] top_level_keys_of(decode_utf8(bytes@)).contains(k) && !is_tier_a_key(k),
        ),
{
    let keys = match signature_document_top_level_keys(bytes) {
        Err(e) => return Err(e),
        Ok(keys) => keys,
    };
    let ghost all = top_level_keys_of(decode_utf8(bytes@));
    let mut i: usize = 0;
    while i < keys.len()
        invariant
            i <= keys.len(),
            bytes@.len() <= SIGNATURE_DOCUMENT_MAX_BYTES,
            valid_utf8(bytes@),
            all == top_level_keys_of(decode_utf8(bytes@)),
            keys.deep_view().to_set() == all.to_set(),
            forall|j: int| 0 <= j < i ==> is_tier_a_key(#[trigger] keys.deep_view()[j]),
        decreases keys.len() - i,
    {
        if !is_tier_a_top_level_key(keys[i].as_str()) {
            proof {
                let k = keys.deep_view()[i as int];
                assert(keys.deep_view().to_set().contains(k));
                assert(all.to_set().contains(k));
                assert(all.contains(k));
            }
            return Ok(true);
        }
        i = i + 1;
    }
    proof {
        assert forall|k: Seq<char>| #[trigger] all.contains(k) implies is_tier_a_key(k) by {
            assert(all.to_set().contains(k));
            assert(keys.deep_view().to_set().contains(k));
            let j = choose|j: int| 0 <= j < keys.deep_view().len() && keys.deep_view()[j] == k;
        }
    }
    Ok(false)
}

/// The character of a hexadecimal digit (upper case).
pub open spec fn hex_digit(d: nat) -> char {
    if d < 10 {
        ((d + 0x30) as u32) as char
    } else {
        ((d - 10 + 0x41) as u32) as char
    }
}

/// Four upper-case hexadecimal digits of `v` (below `0x10000`).
pub open spec fn hex4(v: nat) -> Seq<char> {
    seq![
        hex_digit((v / 4096) % 16),
        hex_digit((v / 256) % 16),
        hex_digit((v / 16) % 16),
        hex_digit(v % 16),
    ]
}

/// Whether `c` takes a `\uXXXX` escape in a double-quoted YAML scalar.
pub open spec fn needs_unicode_escape(c: char) -> bool {
    let v = c as u32;
    v <= 0x1f || (0x7f <= v && v <= 0x9f) || v == 0x2028 || v == 0x2029
}

/// The double-quoted YAML spelling of one character.
pub open spec fn escape_char(c: char) -> Seq<char> {
    if c == '"' {
        seq!['\\', '"']
    } else if c == '\\' {
        seq!['\\', '\\']
    } else if c == '\0' {
        seq!['\\', '0']
    } else if c == '\x07' {
        seq!['\\', 'a']
    } else if c == '\x08' {
        seq!['\\', 'b']
    } else if c == '\t' {
        seq!['\\', 't']
    } else if c == '\n' {
        seq!['\\', 'n']
    } else if c == '\x0B' {
        seq!['\\', 'v']
    } else if c == '\x0C' {
        seq!['\\', 'f']
    } else if c == '\r' {
        seq!['\\', 'r']
    } else if c == '\x1B' {
        seq!['\\', 'e']
    } else if needs_unicode_escape(c) {
        seq!['\\', 'u'] + hex4(c as nat)
    } else {
        seq![c]
    }
}

/// The escaped spelling of every character of `s`.
pub open spec fn escaped(s: Seq<char>) -> Seq<char>
    decreases s.len(),
{
    if s.len() == 0 {
        Seq::empty()
    } else {
        escaped(s.drop_last()) + escape_char(s.last())
    }
}

/// The double-quoted YAML scalar for `s`.
pub open spec fn quoted(s: Seq<char>) -> Seq<char> {
    seq!['"'] + escaped(s) + seq!['"']
}

/// UTF-8 encoding distributes over concatenation.
pub proof fn lemma_encode_utf8_concat(a: Seq<char>, b: Seq<char>)
    ensures
        encode_utf8(a + b) == encode_utf8(a) + encode_utf8(b),
    decreases a.len(),
{
    if a.len() == 0 {
        assert(a + b =~= b);
        assert(encode_utf8(a) =~= Seq::<u8>::empty());
        assert(encode_utf8(a) + encode_utf8(b) =~= encode_utf8(b));
    } else {
        assert((a + b).drop_first() =~= a.drop_first() + b);
        lemma_encode_utf8_concat(a.drop_first(), b);
        assert(encode_utf8(a + b) =~= encode_utf8(a) + encode_utf8(b));
    }
}

/// Every character takes one to four UTF-8 bytes.
pub proof fn lemma_encode_utf8_char_len(c: char)
    ensures
        1 <= encode_utf8(seq![c]).len() <= 4,
        (c as u32) < 0x80 ==> encode_utf8(seq![c]).len() == 1,
{
    let one = seq![c];
    assert(one.drop_first() =~= Seq::<char>::empty());
    assert(encode_utf8(one.drop_first()) =~= Seq::<u8>::empty());
    assert(encode_utf8(one) =~= vstd::utf8::encode_scalar(c as u32));
}

/// A string has at least as many UTF-8 bytes as characters.
pub proof fn lemma_encode_utf8_len_at_least(s: Seq<char>)
    ensures
        encode_utf8(s).len() >= s.len(),
    decreases s.len(),
{
    if s.len() > 0 {
        lemma_encode_utf8_len_at_least(s.drop_first());
        assert(s =~= seq![s[0]] + s.drop_first());
        lemma_encode_utf8_concat(seq![s[0]], s.drop_first());
        lemma_encode_utf8_char_len(s[0]);
    }
}

/// Escaping a character never shortens its UTF-8 encoding.
proof fn lemma_escape_char_len(c: char)
    ensures
        encode_utf8(escape_char(c)).len() >= encode_utf8(seq![c]).len(),
{
    lemma_encode_utf8_char_len(c);
    lemma_encode_utf8_len_at_least(escape_char(c));
}

/// Escaping a string never shortens its UTF-8 encoding.
pub proof fn lemma_escaped_len(s: Seq<char>)
    ensures
        encode_utf8(escaped(s)).len() >= encode_utf8(s).len(),
    decreases s.len(),
{
    if s.len() > 0 {
        lemma_escaped_len(s.drop_last());
        lemma_escape_char_len(s.last());
        lemma_encode_utf8_concat(escaped(s.drop_last()), escape_char(s.last()));
        assert(s =~= s.drop_last() + seq![s.last()]);
        lemma_encode_utf8_concat(s.drop_last(), seq![s.last()]);
    }
}

/// A double-quoted scalar takes at least two more UTF-8 bytes than the
/// string it quotes.
pub proof fn lemma_quoted_len(s: Seq<char>)
    ensures
        encode_utf8(quoted(s)).len() >= encode_utf8(s).len() + 2,
{
    lemma_escaped_len(s);
    lemma_encode_utf8_concat(seq!['"'] + escaped(s), seq!['"']);
    lemma_encode_utf8_concat(seq!['"'], escaped(s));
    lemma_encode_utf8_char_len('"');
}

fn hex_char(d: u32) -> (r: char)
    requires
        d < 16,
    ensures
        r == hex_digit(d as nat),
{
    if d < 10 {
        char_from_ascii((d + 0x30) as u8)
    } else {
        char_from_ascii((d - 10 + 0x41) as u8)
    }
}

fn char_from_ascii(b: u8) -> (r: char)
    requires
        b < 128,
    ensures
        r == (b as u32) as char,
{
    b as char
}

/// Append the escaped spelling of `c`.
fn push_escaped(out: &mut String, c: char)
    ensures
        final(out)@ == old(out)@ + escape_char(c),
{
    let ghost start = out@;
    if c == '"' {
        push_char(out, '\\');
        push_char(out, '"');
    } else if c == '\\' {
        push_char(out, '\\');
        push_char(out, '\\');
    } else if c == '\0' {
        push_char(out, '\\');
        push_char(out, '0');
    } else if c == '\x07' {
        push_char(out, '\\');
        push_char(out, 'a');
    } else if c == '\x08' {
        push_char(out, '\\');
        push_char(out, 'b');
    } else if c == '\t' {
        push_char(out, '\\');
        push_char(out, 't');
    } else if c == '\n' {
        push_char(out, '\\');
        push_char(out, 'n');
    } else if c == '\x0B' {
        push_char(out, '\\');
        push_char(out, 'v');
    } else if c == '\x0C' {
        push_char(out, '\\');
        push_char(out, 'f');
    } else if c == '\r' {
        push_char(out, '\\');
        push_char(out, 'r');
    } else if c == '\x1B' {
        push_char(out, '\\');
        push_char(out, 'e');
    } else {
        let v = c as u32;
        if v <= 0x1f || (0x7f <= v && v <= 0x9f) || v == 0x2028 || v == 0x2029 {
            push_char(out, '\\');
            push_char(out, 'u');
            push_char(out, hex_char((v / 4096) % 16));
            push_char(out, hex_char((v / 256) % 16));
            push_char(out, hex_char((v / 16) % 16));
            push_char(out, hex_char(v % 16));
        } else {
            push_char(out, c);
        }
    }
    assert(out@ =~= start + escape_char(c));
}

/// The double-quoted YAML scalar spelling of `value`.
pub fn quote_yaml_string(value: &str) -> (r: String)
    ensures
        r@ == quoted(value@),
{
    let chars = chars_of(value);
    let mut out = String::new();
    push_char(&mut out, '"');
    let mut i: usize = 0;
    while i < chars.len()
        invariant
            i <= chars.len(),
            chars@ == value@,
            out@ == seq!['"'] + escaped(chars@.subrange(0, i as int)),
        decreases chars.len() - i,
    {
        let ghost before = out@;
        push_escaped(&mut out, chars[i]);
        assert(chars@.subrange(0, i + 1).drop_last() =~= chars@.subrange(0, i as int));
        i = i + 1;
        assert(out@ =~= seq!['"'] + escaped(chars@.subrange(0, i as int)));
    }
    push_char(&mut out, '"');
    assert(chars@.subrange(0, chars.len() as int) =~= value@);
    assert(out@ =~= quoted(value@));
    out
}

/// Whether the YAML parser reads `s`, written as a plain scalar, back as
/// the same string.
pub open spec fn plain_scalar_round_trips(s: Seq<char>) -> bool {
    yaml_string_document(s) == Some(s)
}

/// Whether `value` written as a plain YAML scalar parses back as itself.
pub fn plain_yaml_scalar_round_trips_as_string(value: &str) -> (r: bool)
    ensures
        r == plain_scalar_round_trips(value@),
{
    match parse_yaml_string(value) {
        Some(parsed) => {
            let written = String::from_str(value);
            parsed == written
        },
        None => false,
    }
}

/// The canonical carrier text for the given fields.
pub open spec fn canonical_carrier(
    schema: Seq<char>,
    alg: Seq<char>,
    keyid: Option<Seq<char>>,
    signature: Seq<char>,
) -> Seq<char> {
    "schema: "@ + schema + "\nalg: "@ + alg + "\n"@ + match keyid {
        Some(k) => "keyid: "@ + quoted(k) + "\n"@,
        None => Seq::<char>::empty(),
    } + "signature: "@ + (if plain_scalar_round_trips(signature) {
        signature
    } else {
        quoted(signature)
    }) + "\n"@
}

pub open spec fn opt_string(o: Option<String>) -> Option<Seq<char>> {
    match o {
        Some(s) => Some(s@),
        None => None,
    }
}

/// Serialize a canonical YAML signature carrier.
///
/// Rejects a noncanonical schema or algorithm and a signature that is not
/// unpadded URL-safe base64. A signature that the YAML parser would not read
/// back as itself is written double-quoted.
pub fn serialize_signature_document(doc: &SignatureDocument) -> (r: Result<String, CoreError>)
    ensures
        doc.schema@ != SCHEMA_V1ALPHA1@ ==> r == Err::<String, CoreError>(CoreError::SchemaMismatch),
        doc.schema@ == SCHEMA_V1ALPHA1@ && algorithm_of_yaml_chars(doc.alg@) is None ==> (r matches Err(
            CoreError::SignatureYaml(m),
        ) && m@ == noncanonical_alg_message()),
        doc.schema@ == SCHEMA_V1ALPHA1@ && algorithm_of_yaml_chars(doc.alg@) is Some
            && base64_url_nopad_decoding(encode_utf8(doc.signature@)) is None ==> r == Err::<
            String,
            CoreError,
        >(CoreError::InvalidBase64),
        doc.schema@ == SCHEMA_V1ALPHA1@ && algorithm_of_yaml_chars(doc.alg@) is Some
            && base64_url_nopad_decoding(encode_utf8(doc.signature@)) is Some ==> (r matches Ok(s)
            && s@ == canonical_carrier(
            doc.schema@,
            doc.alg@,
            opt_string(doc.keyid),
            doc.signature@,
        )),
{
    match doc.validate_schema() {
        Err(e) => return Err(e),
        Ok(()) => {},
    }
    if AlgorithmId::from_yaml_str(doc.alg.as_str()).is_none() {
        return Err(
            CoreError::SignatureYaml(
                String::from_str("signature document alg is not a canonical v1alpha1 algorithm"),
            ),
        );
    }
    if base64_url_decode(doc.signature.as_str().as_bytes()).is_none() {
        return Err(CoreError::InvalidBase64);
    }
    let mut out = String::from_str("schema: ");
    out.append(doc.schema.as_str());
    out.append("\nalg: ");
    out.append(doc.alg.as_str());
    out.append("\n");
    let ghost head = out@;
    match &doc.keyid {
        Some(keyid) => {
            out.append("keyid: ");
            let q = quote_yaml_string(keyid.as_str());
            out.append(q.as_str());
            out.append("\n");
        },
        None => {},
    }
    out.append("signature: ");
    if plain_yaml_scalar_round_trips_as_string(doc.signature.as_str()) {
        out.append(doc.signature.as_str());
    } else {
        let q = quote_yaml_string(doc.signature.as_str());
        out.append(q.as_str());
    }
    out.append("\n");
    assert(out@ =~= canonical_carrier(
        doc.schema@,
        doc.alg@,
        opt_string(doc.keyid),
        doc.signature@,
    ));
    Ok(out)
}

/// The value of a hexadecimal digit, either case.
pub open spec fn hex_value(c: char) -> Option<nat> {
    if '0' <= c && c <= '9' {
        Some((c as nat - 0x30) as nat)
    } else if 'A' <= c && c <= 'F' {
        Some((c as nat - 0x41 + 10) as nat)
    } else if 'a' <= c && c <= 'f' {
        Some((c as nat - 0x61 + 10) as nat)
    } else {
        None
    }
}

/// The character that a one-letter escape of a YAML double-quoted scalar
/// stands for.
pub open spec fn yaml_simple_escape(e: char) -> Option<char> {
    if e == '0' {
        Some('\0')
    } else if e == 'a' {
        Some('\x07')
    } else if e == 'b' {
        Some('\x08')
    } else if e == 't' || e == '\t' {
        Some('\t')
    } else if e == 'n' {
        Some('\n')
    } else if e == 'v' {
        Some('\x0B')
    } else if e == 'f' {
        Some('\x0C')
    } else if e == 'r' {
        Some('\r')
    } else if e == 'e' {
        Some('\x1B')
    } else if e == ' ' {
        Some(' ')
    } else if e == '"' {
        Some('"')
    } else if e == '/' {
        Some('/')
    } else if e == '\\' {
        Some('\\')
    } else if e == 'N' {
        Some('\u{85}')
    } else if e == '_' {
        Some('\u{A0}')
    } else if e == 'L' {
        Some('\u{2028}')
    } else if e == 'P' {
        Some('\u{2029}')
    } else {
        None
    }
}

/// The character of a `\uXXXX` escape.
pub open spec fn yaml_unicode_escape(a: char, b: char, c: char, d: char) -> Option<char> {
    match (hex_value(a), hex_value(b), hex_value(c), hex_value(d)) {
        (Some(x), Some(y), Some(z), Some(w)) => {
            let v = 4096 * x + 256 * y + 16 * z + w;
            if v < 0xD800 || 0xE000 <= v {
                Some((v as u32) as char)
            } else {
                None
            }
        },
        _ => None,
    }
}

/// What a YAML reader makes of the text between the quotes of a
/// double-quoted scalar (on one line): a backslash starts an escape, a
/// bare quote or line break ends or folds the scalar and is not read here,
/// any other character stands for itself.
pub open spec fn yaml_unescape(t: Seq<char>) -> Option<Seq<char>>
    decreases t.len(),
{
    if t.len() == 0 {
        Some(Seq::empty())
    } else if t[0] == '\\' {
        if t.len() < 2 {
            None
        } else if yaml_simple_escape(t[1]) is Some {
            match yaml_unescape(t.subrange(2, t.len() as int)) {
                Some(r) => Some(seq![yaml_simple_escape(t[1])->0] + r),
                None => None,
            }
        } else if t[1] == 'u' && t.len() >= 6 && yaml_unicode_escape(t[2], t[3], t[4], t[5]) is Some {
            match yaml_unescape(t.subrange(6, t.len() as int)) {
                Some(r) => Some(seq![yaml_unicode_escape(t[2], t[3], t[4], t[5])->0] + r),
                None => None,
            }
        } else {
            None
        }
    } else if t[0] == '"' || t[0] == '\n' || t[0] == '\r' {
        None
    } else {
        match yaml_unescape(t.subrange(1, t.len() as int)) {
            Some(r) => Some(seq![t[0]] + r),
            None => None,
        }
    }
}

/// The value of a one-line double-quoted YAML scalar.
pub open spec fn yaml_double_quoted_value(text: Seq<char>) -> Option<Seq<char>> {
    if text.len() >= 2 && text[0] == '"' && text[text.len() - 1] == '"' {
        yaml_unescape(text.subrange(1, text.len() - 1))
    } else {
        None
    }
}

proof fn lemma_escaped_concat(a: Seq<char>, b: Seq<char>)
    ensures
        escaped(a + b) == escaped(a) + escaped(b),
    decreases b.len(),
{
    if b.len() == 0 {
        assert(a + b =~= a);
        assert(escaped(a) + escaped(b) =~= escaped(a));
    } else {
        lemma_escaped_concat(a, b.drop_last());
        assert((a + b).drop_last() =~= a + b.drop_last());
        assert((a + b).last() == b.last());
        assert(escaped(a) + escaped(b) =~= escaped(a) + escaped(b.drop_last()) + escape_char(b.last()));
    }
}

proof fn lemma_hex_digit_value(d: nat)
    requires
        d < 16,
    ensures
        hex_value(hex_digit(d)) == Some(d),
{
    if d < 10 {
        let x: u32 = (d + 0x30) as u32;
        vstd::utf8::char_is_scalar(hex_digit(d));
        assert((x as char) as u32 == x) by {
            assert(x < 0xD800);
        }
    } else {
        let x: u32 = (d - 10 + 0x41) as u32;
        assert((x as char) as u32 == x) by {
            assert(x < 0xD800);
        }
    }
}

proof fn lemma_hex4_value(v: u32)
    requires
        v < 0x10000,
    ensures
        4096 * ((v / 4096) % 16) + 256 * ((v / 256) % 16) + 16 * ((v / 16) % 16) + v % 16 == v,
{
    assert(4096 * ((v / 4096) % 16) + 256 * ((v / 256) % 16) + 16 * ((v / 16) % 16) + v % 16 == v)
        by (bit_vector)
        requires
            v < 0x10000,
    ;
}

/// Reading back the escaped spelling of one character gives the character.
proof fn lemma_unescape_escape_char(c: char, t: Seq<char>)
    ensures
        yaml_unescape(escape_char(c) + t) == match yaml_unescape(t) {
            Some(r) => Some(seq![c] + r),
            None => None::<Seq<char>>,
        },
{
    let e = escape_char(c);
    let u = e + t;
    if e.len() == 2 {
        assert(u.subrange(2, u.len() as int) =~= t);
        assert(u[0] == '\\' && u[1] == e[1]);
    } else if e.len() == 6 {
        let v = c as u32;
        vstd::utf8::char_is_scalar(c);
        lemma_hex_digit_value(((v / 4096) % 16) as nat);
        lemma_hex_digit_value(((v / 256) % 16) as nat);
        lemma_hex_digit_value(((v / 16) % 16) as nat);
        lemma_hex_digit_value((v % 16) as nat);
        lemma_hex4_value(v);
        vstd::utf8::char_u32_cast(c, v);
        assert(u.subrange(6, u.len() as int) =~= t);
        assert(u[0] == '\\' && u[1] == 'u' && u[2] == e[2] && u[3] == e[3] && u[4] == e[4] && u[5] == e[5]);
        assert(yaml_unicode_escape(u[2], u[3], u[4], u[5]) == Some(c));
    } else {
        assert(u.subrange(1, u.len() as int) =~= t);
        assert(u[0] == c);
    }
}

/// Reading back the escaped spelling of a text gives the text.
proof fn lemma_unescape_escaped(s: Seq<char>)
    ensures
        yaml_unescape(escaped(s)) == Some(s),
    decreases s.len(),
{
    if s.len() == 0 {
        assert(escaped(s) =~= Seq::<char>::empty());
    } else {
        let rest = s.subrange(1, s.len() as int);
        assert(s =~= seq![s[0]] + rest);
        lemma_escaped_concat(seq![s[0]], rest);
        assert(seq![s[0]].drop_last() =~= Seq::<char>::empty());
        assert(escaped(Seq::<char>::empty()) == Seq::<char>::empty());
        assert(seq![s[0]].last() == s[0]);
        assert(escaped(seq![s[0]]) =~= escape_char(s[0]));
        lemma_unescape_escaped(rest);
        lemma_unescape_escape_char(s[0], escaped(rest));
        assert(seq![s[0]] + rest =~= s);
    }
}

/// Every text survives double quoting: a YAML reader takes the
/// double-quoted scalar written for `s` back to exactly `s`. In
/// particular every backslash and every quote of `s` is escaped.
pub proof fn lemma_quoted_reads_back(s: Seq<char>)
    ensures
        yaml_double_quoted_value(quoted(s)) == Some(s),
{
    let q = quoted(s);
    assert(q.subrange(1, q.len() - 1) =~= escaped(s));
    lemma_unescape_escaped(s);
}

} // verus!
