//! Decision logic of the attribute-driven generator.
//!
//! The generator reads the declaration of a type that asks for an automatic
//! [`Label`](crate::Label) implementation, scans the annotations attached to
//! that declaration for the one named `label`, validates its shape, and
//! decides what to emit: the label binding itself, or one diagnostic that
//! pinpoints the mistake. Everything the decision reads from the declaration
//! is held here as plain values ([`Attr`]), so the decision is an ordinary
//! function from the type's name and its annotations to a [`Generated`]
//! outcome; the plumbing that turns a token stream into those values and the
//! outcome back into tokens lives outside the library.

use vstd::prelude::*;

verus! {

/// The shape of one annotation, as far as the generator reads it.
#[derive(Clone, Debug, PartialEq, Eq)]
pub enum AttrShape {
    /// Name/value form whose value is a string literal; holds that string.
    StrValue(String),
    /// Name/value form whose value is a literal of some other kind.
    NonStrValue,
    /// Parses as an annotation, but is not in name/value form (list form, say).
    NotNameValue,
    /// Cannot be parsed as an annotation at all.
    Unparseable,
}

/// One annotation attached to the type declaration: its name and its shape.
#[derive(Clone, Debug, PartialEq, Eq)]
pub struct Attr {
    pub name: String,
    pub shape: AttrShape,
}

/// The source location a diagnostic is anchored at: the most specific one
/// available for the mistake it reports.
#[derive(Clone, Copy, Debug, PartialEq, Eq, Structural)]
pub enum Anchor {
    /// The name of the type asking for the derive.
    TypeName,
    /// The offending (non-string) value inside the annotation.
    Value,
    /// The malformed annotation itself.
    Annotation,
    /// The derive request's call site: no more specific location is known.
    CallSite,
}

/// A compile-time error report: an explanation and where to point it.
#[derive(Clone, Debug, PartialEq, Eq)]
pub struct Diagnostic {
    pub anchor: Anchor,
    pub message: String,
}

/// What the generator decides to emit.
#[derive(Clone, Debug, PartialEq, Eq)]
pub enum Generated {
    /// Emit the implementation of the Label contract for the named type,
    /// binding the given string as its constant label.
    Binding { ident: String, label: String },
    /// Emit nothing: compilation halts with this diagnostic.
    Reject(Diagnostic),
}

/// The recognized name of the helper annotation.
pub open spec fn label_attr_name() -> Seq<char> {
    "label"@
}

/// Whether an annotation is the helper annotation the generator consumes.
pub open spec fn is_label_attr(a: Attr) -> bool {
    a.name@ == label_attr_name()
}

/// Index of the first annotation named `label`, or `attrs.len()` if there is
/// none: only that annotation decides the outcome.
pub open spec fn first_label_attr(attrs: Seq<Attr>) -> int
    decreases attrs.len(),
{
    if attrs.len() == 0 {
        0
    } else if is_label_attr(attrs[0]) {
        0
    } else {
        1 + first_label_attr(attrs.drop_first())
    }
}

/// Diagnostic text for a derive request without the helper annotation.
pub open spec fn missing_attr_note() -> Seq<char> {
    "missing label attribute, e.g. #[label = \"My label\"]"@
}

/// Diagnostic text for an annotation whose value is not a string literal.
pub open spec fn non_string_value_note() -> Seq<char> {
    "expected a string label, e.g. #[label = \"My label\"]\n                                        ^^^^^^^^^^ i.e. this part needs to be a string, with quotes!\n"@
}

/// Diagnostic text for an annotation that is not in name/value form.
pub open spec fn not_name_value_note() -> Seq<char> {
    "expected name value syntax e.g. #[label = \"My label\"]\n                                       ^^^ i.e. this eq sign is needed, not #[Label(\"My label\")]\n"@
}

/// Diagnostic text for an annotation that could not be parsed at all.
pub open spec fn unparseable_note() -> Seq<char> {
    "Error parsing label attribute.\n\nYour label helper attribute should be above the type deriving Label,\njust below the #[derive(Label)].\ne.g.\n    #[derive(Label, Clone, Debug, ...)]\n    #[label = \"My label\"]\n    struct MyStruct {\n"@
}

/// What the generator must emit for a given type name and annotation list:
/// the whole behaviour of [`label`], case by case.
pub open spec fn generated_for(ident: Seq<char>, attrs: Seq<Attr>, out: Generated) -> bool {
    let j = first_label_attr(attrs);
    if j == attrs.len() {
        &&& out matches Generated::Reject(d)
        &&& d.anchor is TypeName
        &&& d.message@ == missing_attr_note()
    } else {
        match attrs[j].shape {
            AttrShape::StrValue(s) => {
                &&& out matches Generated::Binding { ident: t, label: l }
                &&& t@ == ident
                &&& l@ == s@
            },
            AttrShape::NonStrValue => {
                &&& out matches Generated::Reject(d)
                &&& d.anchor is Value
                &&& d.message@ == non_string_value_note()
            },
            AttrShape::NotNameValue => {
                &&& out matches Generated::Reject(d)
                &&& d.anchor is Annotation
                &&& d.message@ == not_name_value_note()
            },
            AttrShape::Unparseable => {
                &&& out matches Generated::Reject(d)
                &&& d.anchor is CallSite
                &&& d.message@ == unparseable_note()
            },
        }
    }
}

/// The first index whose annotation is named `label`, after a prefix where
/// none is, is `first_label_attr`; so is the length when none is at all.
proof fn lemma_first_label_attr_at(attrs: Seq<Attr>, i: int)
    requires
        0 <= i <= attrs.len(),
        forall|k: int| 0 <= k < i ==> !is_label_attr(attrs[k]),
        i < attrs.len() ==> is_label_attr(attrs[i]),
    ensures
        first_label_attr(attrs) == i,
    decreases attrs.len(),
{
    if i > 0 {
        assert forall|k: int| 0 <= k < i - 1 implies !is_label_attr(attrs.drop_first()[k]) by {
            assert(attrs.drop_first()[k] == attrs[k + 1]);
        }
        if i < attrs.len() {
            assert(attrs.drop_first()[i - 1] == attrs[i]);
        }
        lemma_first_label_attr_at(attrs.drop_first(), i - 1);
    }
}

/// Whether this annotation carries the recognized name.
fn attr_names_label(a: &Attr) -> (b: bool)
    ensures
        b == is_label_attr(*a),
{
    let key: String = "label".to_owned();
    a.name == key
}

/// Message of the missing-annotation diagnostic.
fn missing_attr_message() -> (r: String)
    ensures
        r@ == missing_attr_note(),
{
    "missing label attribute, e.g. #[label = \"My label\"]".to_owned()
}

/// Message of the wrong-value-kind diagnostic, with a pointer at the value.
fn non_string_value_message() -> (r: String)
    ensures
        r@ == non_string_value_note(),
{
    "expected a string label, e.g. #[label = \"My label\"]\n                                        ^^^^^^^^^^ i.e. this part needs to be a string, with quotes!\n".to_owned()
}

/// Message of the wrong-shape diagnostic, with a pointer at the missing `=`.
fn not_name_value_message() -> (r: String)
    ensures
        r@ == not_name_value_note(),
{
    "expected name value syntax e.g. #[label = \"My label\"]\n                                       ^^^ i.e. this eq sign is needed, not #[Label(\"My label\")]\n".to_owned()
}

/// Message of the unparseable-annotation diagnostic: general placement advice.
fn unparseable_message() -> (r: String)
    ensures
        r@ == unparseable_note(),
{
    "Error parsing label attribute.\n\nYour label helper attribute should be above the type deriving Label,\njust below the #[derive(Label)].\ne.g.\n    #[derive(Label, Clone, Debug, ...)]\n    #[label = \"My label\"]\n    struct MyStruct {\n".to_owned()
}

/// Decide what the attribute-driven generator emits for a type named
/// `ident` whose declaration carries the annotations `attrs`.
///
/// The first annotation named `label` decides everything: a string value
/// yields the label binding (the only success path); any other shape, or the
/// absence of the annotation, yields the diagnostic for exactly that mistake.
pub fn label(ident: String, attrs: &Vec<Attr>) -> (out: Generated)
    ensures
        generated_for(ident@, attrs@, out),
{
    let n = attrs.len();
    let mut i: usize = 0;
    while i < n
        invariant
            i <= n,
            n == attrs@.len(),
            forall|k: int| 0 <= k < i ==> !is_label_attr(attrs@[k]),
        decreases n - i,
    {
        if attr_names_label(&attrs[i]) {
            proof {
                lemma_first_label_attr_at(attrs@, i as int);
            }
            match &attrs[i].shape {
                AttrShape::StrValue(s) => {
                    return Generated::Binding { ident, label: s.clone() };
                },
                AttrShape::NonStrValue => {
                    return Generated::Reject(Diagnostic {
                        anchor: Anchor::Value,
                        message: non_string_value_message(),
                    });
                },
                AttrShape::NotNameValue => {
                    return Generated::Reject(Diagnostic {
                        anchor: Anchor::Annotation,
                        message: not_name_value_message(),
                    });
                },
                AttrShape::Unparseable => {
                    return Generated::Reject(Diagnostic {
                        anchor: Anchor::CallSite,
                        message: unparseable_message(),
                    });
                },
            }
        }
        i += 1;
    }
    proof {
        lemma_first_label_attr_at(attrs@, attrs@.len() as int);
    }
    Generated::Reject(Diagnostic { anchor: Anchor::TypeName, message: missing_attr_message() })
}

} // verus!
