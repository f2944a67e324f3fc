//! Errors of the binding layer, and the decoding of the text that the C++
//! shim puts into every exception it rethrows:
//!
//! ```text
//! OCCT:<DynamicTypeName>:<GetMessageString>
//! ```
use vstd::prelude::*;

use crate::seqs::{first_index, lemma_first_index, lemma_first_index_is};
use crate::text::{chars_of, debug_text, push_str, same_chars, str_debug_text, string_of_range};

verus! {

/// Coarse classification of OCCT exceptions, by their class name.
#[derive(Debug, Clone, PartialEq, Eq)]
#[non_exhaustive]
pub enum OcctErrorKind {
    /// `Standard_ConstructionError`: geometry that cannot be constructed.
    ConstructionError,
    /// `gp_VectorWithNullMagnitude`: an operation needing a non-zero vector.
    NullMagnitude,
    /// `Standard_DomainError`: input outside the operation's domain.
    DomainError,
    /// `Standard_OutOfRange`: an index outside the permitted range.
    OutOfRange,
    /// Any other `Standard_Failure` subclass; holds its dynamic type name.
    Other(String),
}

/// What an `OcctErrorKind` stands for, with the class name as characters.
pub enum OcctErrorKindView {
    ConstructionError,
    NullMagnitude,
    DomainError,
    OutOfRange,
    Other(Seq<char>),
}

impl View for OcctErrorKind {
    type V = OcctErrorKindView;

    open spec fn view(&self) -> OcctErrorKindView {
        match self {
            OcctErrorKind::ConstructionError => OcctErrorKindView::ConstructionError,
            OcctErrorKind::NullMagnitude => OcctErrorKindView::NullMagnitude,
            OcctErrorKind::DomainError => OcctErrorKindView::DomainError,
            OcctErrorKind::OutOfRange => OcctErrorKindView::OutOfRange,
            OcctErrorKind::Other(name) => OcctErrorKindView::Other(name@),
        }
    }
}

/// The typed error returned by every fallible operation of this crate.
#[derive(Debug, Clone)]
pub struct OcctError {
    /// Kind, derived from the OCCT exception class name.
    pub kind: OcctErrorKind,
    /// The message, as `Standard_Failure::GetMessageString()` gave it.
    pub message: String,
}

/// An `OcctError` as values: its kind and its message characters.
pub struct OcctErrorView {
    pub kind: OcctErrorKindView,
    pub message: Seq<char>,
}

impl View for OcctError {
    type V = OcctErrorView;

    open spec fn view(&self) -> OcctErrorView {
        OcctErrorView { kind: self.kind@, message: self.message@ }
    }
}

/// The kind that an OCCT exception class name maps to.
pub open spec fn kind_of_class_name(name: Seq<char>) -> OcctErrorKindView {
    if name == "Standard_ConstructionError"@ {
        OcctErrorKindView::ConstructionError
    } else if name == "gp_VectorWithNullMagnitude"@ {
        OcctErrorKindView::NullMagnitude
    } else if name == "Standard_DomainError"@ {
        OcctErrorKindView::DomainError
    } else if name == "Standard_OutOfRange"@ {
        OcctErrorKindView::OutOfRange
    } else {
        OcctErrorKindView::Other(name)
    }
}

/// Law: the class-name table is exact.  Each of the four known kinds comes
/// from its class name and from no other text, character for character;
/// every other name gives `Other` holding that very name.
pub proof fn class_name_table_is_exact(name: Seq<char>)
    ensures
        (kind_of_class_name(name) == OcctErrorKindView::ConstructionError) <==> name
            == "Standard_ConstructionError"@,
        (kind_of_class_name(name) == OcctErrorKindView::NullMagnitude) <==> name
            == "gp_VectorWithNullMagnitude"@,
        (kind_of_class_name(name) == OcctErrorKindView::DomainError) <==> name
            == "Standard_DomainError"@,
        (kind_of_class_name(name) == OcctErrorKindView::OutOfRange) <==> name
            == "Standard_OutOfRange"@,
        name != "Standard_ConstructionError"@ && name != "gp_VectorWithNullMagnitude"@ && name
            != "Standard_DomainError"@ && name != "Standard_OutOfRange"@ ==> kind_of_class_name(name)
            == OcctErrorKindView::Other(name),
        kind_of_class_name(name) matches OcctErrorKindView::Other(n) ==> n == name,
{
    reveal_strlit("Standard_ConstructionError");
    reveal_strlit("gp_VectorWithNullMagnitude");
    reveal_strlit("Standard_DomainError");
    reveal_strlit("Standard_OutOfRange");
    let c = "Standard_ConstructionError"@;
    let g = "gp_VectorWithNullMagnitude"@;
    let d = "Standard_DomainError"@;
    let o = "Standard_OutOfRange"@;
    assert(c != g) by {
        assert(c[0] != g[0]);
    }
    assert(c != d) by {
        assert(c.len() != d.len());
    }
    assert(c != o) by {
        assert(c.len() != o.len());
    }
    assert(g != d) by {
        assert(g.len() != d.len());
    }
    assert(g != o) by {
        assert(g.len() != o.len());
    }
    assert(d != o) by {
        assert(d[9] != o[9]);
    }
}

/// The prefix that marks text produced by the exception shim.
pub open spec fn shim_prefix() -> Seq<char> {
    seq!['O', 'C', 'C', 'T', ':']
}

/// The error that the text of a rethrown exception decodes to.
///
/// Text of the form `OCCT:<class>:<message>` gives the kind of `<class>`
/// and `<message>`, which is everything after the first `:` that follows
/// the prefix (it may itself contain colons).  Any other text gives kind
/// `Other` with an empty class name, and the whole text as the message.
pub open spec fn decoded_exception(what: Seq<char>) -> OcctErrorView {
    let rest = what.skip(shim_prefix().len() as int);
    let d = first_index(rest, ':');
    if what.len() >= shim_prefix().len() && what.take(shim_prefix().len() as int)
        == shim_prefix() && d < rest.len() {
        OcctErrorView { kind: kind_of_class_name(rest.take(d)), message: rest.skip(d + 1) }
    } else {
        OcctErrorView { kind: OcctErrorKindView::Other(Seq::empty()), message: what }
    }
}

/// Law: text in the shim's format decodes to the class's kind and the
/// whole message, whatever colons the message holds, provided the class
/// name holds none.
pub proof fn shim_text_decodes(class: Seq<char>, message: Seq<char>)
    requires
        forall|i: int| 0 <= i < class.len() ==> class[i] != ':',
    ensures
        decoded_exception(shim_prefix() + class + seq![':'] + message) == (OcctErrorView {
            kind: kind_of_class_name(class),
            message,
        }),
{
    let what = shim_prefix() + class + seq![':'] + message;
    let rest = what.skip(5);
    assert(what.take(5) =~= shim_prefix());
    assert(rest =~= class + seq![':'] + message);
    assert forall|j: int| 0 <= j < class.len() implies rest[j] != ':' by {
        assert(rest[j] == class[j]);
    }
    assert(rest[class.len() as int] == ':');
    lemma_first_index_is(rest, ':', class.len() as int);
    assert(rest.take(class.len() as int) =~= class);
    assert(rest.skip(class.len() as int + 1) =~= message);
}

impl OcctErrorKind {
    /// Maps an OCCT exception class name to its kind.
    pub fn from_class_name(name: &str) -> (k: Self)
        ensures
            k@ == kind_of_class_name(name@),
    {
        let v = chars_of(name);
        if same_chars(&v, &chars_of("Standard_ConstructionError")) {
            OcctErrorKind::ConstructionError
        } else if same_chars(&v, &chars_of("gp_VectorWithNullMagnitude")) {
            OcctErrorKind::NullMagnitude
        } else if same_chars(&v, &chars_of("Standard_DomainError")) {
            OcctErrorKind::DomainError
        } else if same_chars(&v, &chars_of("Standard_OutOfRange")) {
            OcctErrorKind::OutOfRange
        } else {
            OcctErrorKind::Other(name.to_owned())
        }
    }
}

/// Decodes the text of an exception rethrown by the C++ shim.
pub fn parse_occt_exception(what: &str) -> (e: OcctError)
    ensures
        e@ == decoded_exception(what@),
{
    let v = chars_of(what);
    let ghost w = what@;
    let n = v.len();
    let ghost rest = w.skip(5);
    if n >= 5 && v[0] == 'O' && v[1] == 'C' && v[2] == 'C' && v[3] == 'T' && v[4] == ':' {
        assert(w.take(5) =~= shim_prefix());
        let mut d: usize = 5;
        while d < n && v[d] != ':'
            invariant
                5 <= d <= n,
                n == w.len(),
                v@ == w,
                forall|j: int| 5 <= j < d ==> w[j] != ':',
            decreases n - d,
        {
            d = d + 1;
        }
        proof {
            assert forall|j: int| 0 <= j < d - 5 implies rest[j] != ':' by {
                assert(rest[j] == w[j + 5]);
            }
            lemma_first_index_is(rest, ':', d - 5);
        }
        if d < n {
            let name = string_of_range(&v, 5, d);
            let message = string_of_range(&v, d + 1, n);
            assert(name@ =~= rest.take(d - 5));
            assert(message@ =~= rest.skip(d - 5 + 1));
            return OcctError { kind: OcctErrorKind::from_class_name(name.as_str()), message };
        }
    } else {
        assert(!(w.len() >= 5 && w.take(5) == shim_prefix())) by {
            if w.len() >= 5 && w.take(5) == shim_prefix() {
                assert(w[0] == w.take(5)[0]);
                assert(w[1] == w.take(5)[1]);
                assert(w[2] == w.take(5)[2]);
                assert(w[3] == w.take(5)[3]);
                assert(w[4] == w.take(5)[4]);
            }
        }
    }
    OcctError { kind: OcctErrorKind::Other(String::new()), message: what.to_owned() }
}

/// The exception type that `cxx` hands back when a bound C++ function throws.
#[verifier::external_type_specification]
#[verifier::external_body]
pub struct ExCxxException(cxx::Exception);

/// The text that `cxx::Exception::what` returns for an exception: the
/// message it was thrown with, which the exception stores and hands back
/// unchanged on every call.
pub uninterp spec fn exception_what(e: cxx::Exception) -> Seq<char>;

/// Calls `cxx::Exception::what`, which returns the message text stored in
/// the exception, and copies it.  The contract claims only that the copy
/// is that text.
#[verifier::external_body]
fn exception_text(e: &cxx::Exception) -> (text: String)
    ensures
        text@ == exception_what(*e),
{
    e.what().to_owned()
}

impl OcctError {
    /// Converts an exception rethrown by the C++ shim: its text is decoded
    /// as [`parse_occt_exception`] does.
    pub fn from_exception(e: cxx::Exception) -> (r: OcctError)
        ensures
            r@ == decoded_exception(exception_what(e)),
    {
        let text = exception_text(&e);
        parse_occt_exception(text.as_str())
    }
}

impl From<cxx::Exception> for OcctError {
    /// Converts an exception rethrown by the C++ shim, as
    /// [`OcctError::from_exception`] does, so that `?` converts it.
    fn from(e: cxx::Exception) -> (r: OcctError)
        ensures
            r@ == decoded_exception(exception_what(e)),
    {
        OcctError::from_exception(e)
    }
}

impl vstd::std_specs::convert::FromSpecImpl<cxx::Exception> for OcctError {
    /// An error is pinned down by its view, not as a value: two strings
    /// with the same characters need not be equal values, so the
    /// conversion is stated by the `ensures` of `from` instead.
    open spec fn obeys_from_spec() -> bool {
        false
    }

    open spec fn from_spec(e: cxx::Exception) -> OcctError {
        choose|r: OcctError| r@ == decoded_exception(exception_what(e))
    }
}

/// Error of a boolean common operation.
#[derive(Debug)]
pub enum CommonError {
    /// The two input shapes do not intersect: OCCT succeeded, but the result
    /// is an empty compound, which is not handed back.
    NoIntersection,
    /// An OCCT exception was raised during the operation.
    Occt(OcctError),
}

impl CommonError {
    /// The underlying OCCT error, where there is one.
    pub fn source(&self) -> (r: Option<&OcctError>)
        ensures
            match self {
                CommonError::NoIntersection => r is None,
                CommonError::Occt(e) => r == Some(e),
            },
    {
        match self {
            CommonError::Occt(e) => Some(e),
            CommonError::NoIntersection => None,
        }
    }
}

/// Error of a boolean fuse, over the shape type `S` that the binding uses.
#[derive(Debug)]
pub enum FuseError<S> {
    /// The two input shapes are disjoint: OCCT succeeded, and the result is
    /// a compound holding both inputs unchanged, handed back so that the
    /// caller can opt in to using it.
    DisjointInputs(S),
    /// An OCCT exception was raised during the operation.
    Occt(OcctError),
}

impl<S> FuseError<S> {
    /// The underlying OCCT error, where there is one.
    pub fn source(&self) -> (r: Option<&OcctError>)
        ensures
            match self {
                FuseError::DisjointInputs(_) => r is None,
                FuseError::Occt(e) => r == Some(e),
            },
    {
        match self {
            FuseError::Occt(e) => Some(e),
            FuseError::DisjointInputs(_) => None,
        }
    }
}

/// The `Debug` text of a kind: its variant's name, and for `Other` the
/// class name in quotes, as `derive(Debug)` writes a tuple variant.
pub open spec fn kind_debug_text(k: OcctErrorKindView) -> Seq<char> {
    match k {
        OcctErrorKindView::ConstructionError => "ConstructionError"@,
        OcctErrorKindView::NullMagnitude => "NullMagnitude"@,
        OcctErrorKindView::DomainError => "DomainError"@,
        OcctErrorKindView::OutOfRange => "OutOfRange"@,
        OcctErrorKindView::Other(name) => "Other("@ + str_debug_text(name) + ")"@,
    }
}

/// The text of an error: its kind as `Debug` writes it, `: `, and the
/// message.
pub open spec fn error_text(e: OcctErrorView) -> Seq<char> {
    kind_debug_text(e.kind) + ": "@ + e.message
}

/// The text of a failed boolean common.
pub open spec fn common_error_text(e: CommonError) -> Seq<char> {
    match e {
        CommonError::NoIntersection => "common: inputs do not intersect; result is empty"@,
        CommonError::Occt(o) => "common: OCCT error: "@ + error_text(o@),
    }
}

/// The text of a failed boolean fuse.
pub open spec fn fuse_error_text<S>(e: FuseError<S>) -> Seq<char> {
    match e {
        FuseError::DisjointInputs(_) => "fuse: inputs are disjoint; result is a compound"@,
        FuseError::Occt(o) => "fuse: OCCT error: "@ + error_text(o@),
    }
}

impl OcctErrorKind {
    /// Appends the `Debug` text of this kind to `out`.
    fn push_debug(&self, out: &mut String)
        ensures
            final(out)@ == old(out)@ + kind_debug_text(self@),
    {
        match self {
            OcctErrorKind::ConstructionError => push_str(out, "ConstructionError"),
            OcctErrorKind::NullMagnitude => push_str(out, "NullMagnitude"),
            OcctErrorKind::DomainError => push_str(out, "DomainError"),
            OcctErrorKind::OutOfRange => push_str(out, "OutOfRange"),
            OcctErrorKind::Other(name) => {
                push_str(out, "Other(");
                let q = debug_text(name.as_str());
                push_str(out, q.as_str());
                push_str(out, ")");
                assert(old(out)@ + kind_debug_text(self@) =~= old(out)@ + "Other("@ + q@ + ")"@);
            },
        }
    }
}

impl OcctError {
    /// The error's text: `<kind:?>: <message>`.
    pub fn to_string(&self) -> (s: String)
        ensures
            s@ == error_text(self@),
    {
        let mut s = String::new();
        self.push_text(&mut s);
        s
    }

    /// Appends the error's text to `out`.
    fn push_text(&self, out: &mut String)
        ensures
            final(out)@ == old(out)@ + error_text(self@),
    {
        self.kind.push_debug(out);
        push_str(out, ": ");
        push_str(out, self.message.as_str());
        assert(old(out)@ + error_text(self@) =~= old(out)@ + kind_debug_text(self.kind@) + ": "@
            + self.message@);
    }
}

impl CommonError {
    /// The error's text.
    pub fn to_string(&self) -> (s: String)
        ensures
            s@ == common_error_text(*self),
    {
        let mut s = String::new();
        match self {
            CommonError::NoIntersection => {
                push_str(&mut s, "common: inputs do not intersect; result is empty");
            },
            CommonError::Occt(e) => {
                push_str(&mut s, "common: OCCT error: ");
                e.push_text(&mut s);
            },
        }
        s
    }
}

impl<S> FuseError<S> {
    /// The error's text.
    pub fn to_string(&self) -> (s: String)
        ensures
            s@ == fuse_error_text(*self),
    {
        let mut s = String::new();
        match self {
            FuseError::DisjointInputs(_) => {
                push_str(&mut s, "fuse: inputs are disjoint; result is a compound");
            },
            FuseError::Occt(e) => {
                push_str(&mut s, "fuse: OCCT error: ");
                e.push_text(&mut s);
            },
        }
        s
    }
}

} // verus!
