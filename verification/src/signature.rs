//! JVM method descriptors: `"(" {FieldType} ")" ReturnType`.
//!
//! A field type is one of the primitive letters `Z B C S I J F D`, an object
//! type `L<name>;`, or an array type: one or more `[` followed by a primitive
//! letter or an object type. The return type is a field type or `V`.
//! Objects and arrays of every dimension collapse to [`JTypeKind::Object`].

use vstd::prelude::*;
use vstd::string::StringSliceAdditionalSpecFns;

verus! {

/// The closed set of kinds a descriptor can name.
#[derive(Clone, Copy, Debug, PartialEq, Eq, Structural)]
pub enum JTypeKind {
    Void,
    Boolean,
    Byte,
    Char,
    Short,
    Int,
    Long,
    Float,
    Double,
    Object,
}

/// Why a descriptor was rejected.
#[derive(Clone, Copy, Debug, PartialEq, Eq, Structural)]
pub enum ParseError {
    /// The text does not follow the descriptor grammar.
    Malformed,
}

/// A parsed descriptor: the argument kinds in order, and the return kind.
#[derive(Debug)]
pub struct ParsedSig {
    pub args: Vec<JTypeKind>,
    pub ret: JTypeKind,
}

/// Mathematical model of a [`ParsedSig`].
pub struct SigModel {
    pub args: Seq<JTypeKind>,
    pub ret: JTypeKind,
}

impl View for ParsedSig {
    type V = SigModel;

    open spec fn view(&self) -> SigModel {
        SigModel { args: self.args@, ret: self.ret }
    }
}

impl SigModel {
    /// No argument is `Void`: `V` is legal only as a return type.
    pub open spec fn wf(self) -> bool {
        forall|i: int| 0 <= i < self.args.len() ==> self.args[i] != JTypeKind::Void
    }
}

impl ParsedSig {
    /// Well-formedness of a parsed descriptor, see [`SigModel::wf`].
    pub open spec fn wf(&self) -> bool {
        self@.wf()
    }
}

pub const CH_OPEN: u8 = 0x28;

pub const CH_CLOSE: u8 = 0x29;

pub const CH_SEMI: u8 = 0x3B;

pub const CH_ARRAY: u8 = 0x5B;

pub const CH_OBJECT: u8 = 0x4C;

pub const CH_VOID: u8 = 0x56;

/// The kind named by a primitive letter, `None` for every other byte.
pub open spec fn primitive_kind(c: u8) -> Option<JTypeKind> {
    if c == 0x5A {
        Some(JTypeKind::Boolean)
    } else if c == 0x42 {
        Some(JTypeKind::Byte)
    } else if c == 0x43 {
        Some(JTypeKind::Char)
    } else if c == 0x53 {
        Some(JTypeKind::Short)
    } else if c == 0x49 {
        Some(JTypeKind::Int)
    } else if c == 0x4A {
        Some(JTypeKind::Long)
    } else if c == 0x46 {
        Some(JTypeKind::Float)
    } else if c == 0x44 {
        Some(JTypeKind::Double)
    } else {
        None
    }
}

/// Index of the first `;` at or after `i`, or `b.len()` when there is none.
pub open spec fn semicolon_from(b: Seq<u8>, i: int) -> int
    decreases b.len() - i,
{
    if i < 0 || i >= b.len() {
        b.len() as int
    } else if b[i] == CH_SEMI {
        i
    } else {
        semicolon_from(b, i + 1)
    }
}

/// Index of the first byte at or after `i` that is not `[`, or `b.len()`.
pub open spec fn brackets_end(b: Seq<u8>, i: int) -> int
    decreases b.len() - i,
{
    if i < 0 || i >= b.len() {
        b.len() as int
    } else if b[i] != CH_ARRAY {
        i
    } else {
        brackets_end(b, i + 1)
    }
}

/// The object type `L<name>;` whose `L` stands at `i`: the index after its `;`.
pub open spec fn object_end(b: Seq<u8>, i: int) -> Option<int> {
    let j = semicolon_from(b, i + 1);
    if j < b.len() {
        Some(j + 1)
    } else {
        None
    }
}

/// The type that starts at `i` (a field type or `V`) and the index after it.
pub open spec fn spec_type_at(b: Seq<u8>, i: int) -> Option<(JTypeKind, int)> {
    if i < 0 || i >= b.len() {
        None
    } else if b[i] == CH_VOID {
        Some((JTypeKind::Void, i + 1))
    } else if primitive_kind(b[i]) is Some {
        Some((primitive_kind(b[i])->0, i + 1))
    } else if b[i] == CH_OBJECT {
        match object_end(b, i) {
            Some(e) => Some((JTypeKind::Object, e)),
            None => None,
        }
    } else if b[i] == CH_ARRAY {
        let j = brackets_end(b, i + 1);
        if j >= b.len() {
            None
        } else if primitive_kind(b[j]) is Some {
            Some((JTypeKind::Object, j + 1))
        } else if b[j] == CH_OBJECT {
            match object_end(b, j) {
                Some(e) => Some((JTypeKind::Object, e)),
                None => None,
            }
        } else {
            None
        }
    } else {
        None
    }
}

/// The argument kinds from `i` up to the closing `)`, and the index of that `)`.
pub open spec fn spec_args_from(b: Seq<u8>, i: int) -> Option<(Seq<JTypeKind>, int)>
    decreases b.len() - i,
{
    if i < 0 || i >= b.len() {
        None
    } else if b[i] == CH_CLOSE {
        Some((Seq::<JTypeKind>::empty(), i))
    } else {
        match spec_type_at(b, i) {
            Some((k, n)) => {
                if k != JTypeKind::Void && i < n {
                    match spec_args_from(b, n) {
                        Some((rest, close)) => Some((seq![k] + rest, close)),
                        None => None,
                    }
                } else {
                    None
                }
            },
            None => None,
        }
    }
}

/// What a descriptor means, `None` when it is malformed.
pub open spec fn spec_parse(b: Seq<u8>) -> Option<SigModel> {
    if b.len() == 0 || b[0] != CH_OPEN {
        None
    } else {
        match spec_args_from(b, 1) {
            Some((args, close)) => match spec_type_at(b, close + 1) {
                Some((ret, end)) => if end == b.len() {
                    Some(SigModel { args, ret })
                } else {
                    None
                },
                None => None,
            },
            None => None,
        }
    }
}

pub proof fn lemma_semicolon_from_bounds(b: Seq<u8>, i: int)
    requires
        0 <= i,
    ensures
        i <= semicolon_from(b, i) || semicolon_from(b, i) == b.len(),
        semicolon_from(b, i) <= b.len(),
        semicolon_from(b, i) < b.len() ==> b[semicolon_from(b, i)] == CH_SEMI,
        forall|j: int| i <= j < semicolon_from(b, i) ==> b[j] != CH_SEMI,
    decreases b.len() - i,
{
    if i < b.len() && b[i] != CH_SEMI {
        lemma_semicolon_from_bounds(b, i + 1);
    }
}

pub proof fn lemma_brackets_end_bounds(b: Seq<u8>, i: int)
    requires
        0 <= i,
    ensures
        i <= brackets_end(b, i) || brackets_end(b, i) == b.len(),
        brackets_end(b, i) <= b.len(),
        brackets_end(b, i) < b.len() ==> b[brackets_end(b, i)] != CH_ARRAY,
        forall|j: int| i <= j < brackets_end(b, i) ==> b[j] == CH_ARRAY,
    decreases b.len() - i,
{
    if i < b.len() && b[i] == CH_ARRAY {
        lemma_brackets_end_bounds(b, i + 1);
    }
}

/// A type that parses ends after where it starts and inside the text.
pub proof fn lemma_type_at_bounds(b: Seq<u8>, i: int)
    ensures
        spec_type_at(b, i) is Some ==> 0 <= i < spec_type_at(b, i).unwrap().1 <= b.len(),
{
    if 0 <= i < b.len() {
        lemma_semicolon_from_bounds(b, i + 1);
        lemma_brackets_end_bounds(b, i + 1);
        let j = brackets_end(b, i + 1);
        lemma_semicolon_from_bounds(b, j + 1);
    }
}

fn byte_kind(c: u8) -> (r: Option<JTypeKind>)
    ensures
        r == primitive_kind(c),
{
    if c == 0x5A {
        Some(JTypeKind::Boolean)
    } else if c == 0x42 {
        Some(JTypeKind::Byte)
    } else if c == 0x43 {
        Some(JTypeKind::Char)
    } else if c == 0x53 {
        Some(JTypeKind::Short)
    } else if c == 0x49 {
        Some(JTypeKind::Int)
    } else if c == 0x4A {
        Some(JTypeKind::Long)
    } else if c == 0x46 {
        Some(JTypeKind::Float)
    } else if c == 0x44 {
        Some(JTypeKind::Double)
    } else {
        None
    }
}

/// Finds the `;` that closes the object type whose `L` stands at `i`.
fn scan_object(b: &[u8], i: usize) -> (r: Result<(JTypeKind, usize), ParseError>)
    requires
        i < b@.len(),
    ensures
        match object_end(b@, i as int) {
            Some(e) => r == Ok::<(JTypeKind, usize), ParseError>((JTypeKind::Object, e as usize))
                && e <= b@.len(),
            None => r == Err::<(JTypeKind, usize), ParseError>(ParseError::Malformed),
        },
{
    let n = b.len();
    let mut j: usize = i + 1;
    while j < n && b[j] != CH_SEMI
        invariant
            i < j <= b@.len(),
            n == b@.len(),
            semicolon_from(b@, i + 1) == semicolon_from(b@, j as int),
        decreases b@.len() - j,
    {
        j += 1;
    }
    if j >= n {
        Err(ParseError::Malformed)
    } else {
        Ok((JTypeKind::Object, j + 1))
    }
}

/// Parses the type that starts at byte `i`: a field type or `V`.
///
/// Returns its kind and the index of the byte after it, or
/// [`ParseError::Malformed`] when no type starts there.
pub fn parse_one_type(b: &[u8], i: usize) -> (r: Result<(JTypeKind, usize), ParseError>)
    ensures
        match spec_type_at(b@, i as int) {
            Some((k, n)) => r == Ok::<(JTypeKind, usize), ParseError>((k, n as usize))
                && i < n <= b@.len(),
            None => r == Err::<(JTypeKind, usize), ParseError>(ParseError::Malformed),
        },
{
    if i >= b.len() {
        return Err(ParseError::Malformed);
    }
    let c = b[i];
    if c == CH_VOID {
        return Ok((JTypeKind::Void, i + 1));
    }
    match byte_kind(c) {
        Some(k) => {
            return Ok((k, i + 1));
        },
        None => {},
    }
    if c == CH_OBJECT {
        proof {
            lemma_semicolon_from_bounds(b@, i + 1);
        }
        scan_object(b, i)
    } else if c == CH_ARRAY {
        let mut j: usize = i + 1;
        while j < b.len() && b[j] == CH_ARRAY
            invariant
                i < j <= b@.len(),
                brackets_end(b@, i + 1) == brackets_end(b@, j as int),
            decreases b@.len() - j,
        {
            j += 1;
        }
        if j >= b.len() {
            return Err(ParseError::Malformed);
        }
        let e = b[j];
        if byte_kind(e).is_some() {
            Ok((JTypeKind::Object, j + 1))
        } else if e == CH_OBJECT {
            proof {
                lemma_semicolon_from_bounds(b@, j + 1);
            }
            scan_object(b, j)
        } else {
            Err(ParseError::Malformed)
        }
    } else {
        Err(ParseError::Malformed)
    }
}

/// What a descriptor given as text means: the meaning of its UTF-8 bytes.
pub open spec fn spec_parse_text(text: Seq<char>) -> Option<SigModel> {
    spec_parse(vstd::utf8::encode_utf8(text))
}

/// Parses a method descriptor.
///
/// Succeeds exactly on the texts of the grammar, with the argument kinds in
/// order and the return kind; every other text is [`ParseError::Malformed`].
pub fn parse_jvm_sig(sig: &str) -> (r: Result<ParsedSig, ParseError>)
    ensures
        match spec_parse_text(sig@) {
            Some(m) => r is Ok && r->Ok_0@ == m && r->Ok_0.wf(),
            None => r == Err::<ParsedSig, ParseError>(ParseError::Malformed),
        },
{
    parse_descriptor(sig.as_bytes())
}

/// [`parse_jvm_sig`] on the descriptor's bytes.
pub fn parse_descriptor(b: &[u8]) -> (r: Result<ParsedSig, ParseError>)
    ensures
        match spec_parse(b@) {
            Some(m) => r is Ok && r->Ok_0@ == m && r->Ok_0.wf(),
            None => r == Err::<ParsedSig, ParseError>(ParseError::Malformed),
        },
{
    if b.len() == 0 || b[0] != CH_OPEN {
        return Err(ParseError::Malformed);
    }
    let mut i: usize = 1;
    let mut args: Vec<JTypeKind> = Vec::new();
    while i < b.len() && b[i] != CH_CLOSE
        invariant
            1 <= i <= b@.len(),
            forall|k: int| 0 <= k < args@.len() ==> args@[k] != JTypeKind::Void,
            spec_args_from(b@, 1) == match spec_args_from(b@, i as int) {
                Some((rest, close)) => Some((args@ + rest, close)),
                None => None,
            },
        decreases b@.len() - i,
    {
        let ghost before = args@;
        match parse_one_type(b, i) {
            Ok((k, ni)) => {
                if k == JTypeKind::Void {
                    return Err(ParseError::Malformed);
                }
                args.push(k);
                proof {
                    match spec_args_from(b@, ni as int) {
                        Some((rest, close)) => {
                            assert(before + (seq![k] + rest) =~= before.push(k) + rest);
                        },
                        None => {},
                    }
                }
                i = ni;
            },
            Err(e) => {
                return Err(e);
            },
        }
    }
    if i >= b.len() {
        return Err(ParseError::Malformed);
    }
    assert(args@ + Seq::<JTypeKind>::empty() =~= args@);
    i += 1;
    match parse_one_type(b, i) {
        Ok((ret, ni)) => {
            if ni != b.len() {
                return Err(ParseError::Malformed);
            }
            Ok(ParsedSig { args, ret })
        },
        Err(e) => Err(e),
    }
}

/// An argument list that parses ends at a `)` inside the text.
pub proof fn lemma_args_end_at_close(b: Seq<u8>, i: int)
    ensures
        spec_args_from(b, i) is Some ==> {
            let close = spec_args_from(b, i).unwrap().1;
            0 <= i <= close < b.len() && b[close] == CH_CLOSE
        },
    decreases b.len() - i,
{
    if 0 <= i < b.len() && b[i] != CH_CLOSE {
        match spec_type_at(b, i) {
            Some((k, n)) => {
                if k != JTypeKind::Void && i < n {
                    lemma_args_end_at_close(b, n);
                }
            },
            None => {},
        }
    }
}

/// A descriptor that parses has no `Void` among its arguments.
pub proof fn lemma_args_never_void(b: Seq<u8>, i: int)
    ensures
        spec_args_from(b, i) is Some ==> {
            let args = spec_args_from(b, i).unwrap().0;
            forall|k: int| 0 <= k < args.len() ==> args[k] != JTypeKind::Void
        },
    decreases b.len() - i,
{
    if 0 <= i < b.len() && b[i] != CH_CLOSE {
        match spec_type_at(b, i) {
            Some((k, n)) => {
                if k != JTypeKind::Void && i < n {
                    lemma_args_never_void(b, n);
                }
            },
            None => {},
        }
    }
}

/// A text without any `)`, such as the truncated `"("`, is malformed.
pub proof fn lemma_without_close_is_malformed(b: Seq<u8>)
    requires
        forall|i: int| 0 <= i < b.len() ==> b[i] != CH_CLOSE,
    ensures
        spec_parse(b) is None,
{
    lemma_args_end_at_close(b, 1);
}

/// Without a `;` in the text, a type that parses holds no `L`.
proof fn lemma_type_without_semicolon(b: Seq<u8>, i: int)
    requires
        forall|j: int| 0 <= j < b.len() ==> b[j] != CH_SEMI,
        spec_type_at(b, i) is Some,
    ensures
        forall|j: int| i <= j < spec_type_at(b, i).unwrap().1 ==> b[j] != CH_OBJECT,
{
    lemma_semicolon_from_bounds(b, i + 1);
    lemma_brackets_end_bounds(b, i + 1);
    let e = brackets_end(b, i + 1);
    lemma_semicolon_from_bounds(b, e + 1);
}

proof fn lemma_args_without_semicolon(b: Seq<u8>, i: int)
    requires
        forall|j: int| 0 <= j < b.len() ==> b[j] != CH_SEMI,
        spec_args_from(b, i) is Some,
    ensures
        forall|j: int| i <= j <= spec_args_from(b, i).unwrap().1 ==> b[j] != CH_OBJECT,
    decreases b.len() - i,
{
    if 0 <= i < b.len() && b[i] != CH_CLOSE {
        let n = spec_type_at(b, i).unwrap().1;
        lemma_type_without_semicolon(b, i);
        lemma_args_without_semicolon(b, n);
    }
}

/// A text that holds an `L` but no `;` (an object type left dangling) is
/// malformed.
pub proof fn lemma_dangling_object_is_malformed(b: Seq<u8>, at: int)
    requires
        0 <= at < b.len(),
        b[at] == CH_OBJECT,
        forall|j: int| 0 <= j < b.len() ==> b[j] != CH_SEMI,
    ensures
        spec_parse(b) is None,
{
    if spec_parse(b) is Some {
        let close = spec_args_from(b, 1).unwrap().1;
        lemma_args_end_at_close(b, 1);
        lemma_args_without_semicolon(b, 1);
        lemma_type_without_semicolon(b, close + 1);
        assert(b[at] != CH_OBJECT);
    }
}

/// The meaning of a descriptor depends on its bytes alone: equal texts have
/// equal parses.
pub proof fn lemma_parse_is_deterministic(a: Seq<u8>, b: Seq<u8>)
    requires
        a =~= b,
    ensures
        spec_parse(a) == spec_parse(b),
{
}

} // verus!
