//! Composable selectors: what shape of data a type asks a query to fetch.
//!
//! Every type that can appear as a query result knows how to write its
//! selector body (the lines between `{` and `}` of a `select`), and how to
//! write itself as an embedded sub-query field. Primitives fetch nothing,
//! containers delegate to their element, and a reference fetches the id plus
//! the referenced type's own selector.

use vstd::prelude::*;

use crate::object::EdgedbObject;
use crate::prim::EdgedbPrim;
use crate::query_ir::QuerySelector;
use crate::refs::Ref;
use crate::shapes::{Inner, Point};

verus! {

/// How a type renders when it is the result clause of a query: a bare field
/// expression, a field selection on an object, or a free-standing object.
#[derive(Debug, Clone, Copy, PartialEq, Eq, Structural)]
pub enum ComposableQueryResultKind {
    Field,
    Selector,
    FreeObject,
}

/// The result kind a selector renders as: field selections and free objects
/// are both selections; a passthrough renders as a bare field.
pub open spec fn selector_result_kind(sel: QuerySelector) -> ComposableQueryResultKind {
    match sel {
        QuerySelector::Selector(_, _) => ComposableQueryResultKind::Selector,
        QuerySelector::Object(_) => ComposableQueryResultKind::Selector,
        QuerySelector::Direct(_, _) => ComposableQueryResultKind::Field,
    }
}

impl QuerySelector {
    /// The result kind this selector gives the structure it was built for.
    pub fn as_composable_query_result_type(&self) -> (r: ComposableQueryResultKind)
        ensures
            r == selector_result_kind(*self),
    {
        match self {
            QuerySelector::Selector(_, _) => ComposableQueryResultKind::Selector,
            QuerySelector::Object(_) => ComposableQueryResultKind::Selector,
            QuerySelector::Direct(_, _) => ComposableQueryResultKind::Field,
        }
    }
}

/// The text an embedded sub-query field appends after its field name, given
/// the nested type's result kind and selector body.
pub open spec fn subquery_text(kind: ComposableQueryResultKind, sel: Seq<char>) -> Seq<char> {
    match kind {
        ComposableQueryResultKind::Field => Seq::<char>::empty(),
        ComposableQueryResultKind::Selector => ": {\n"@ + sel + "\n}"@,
        ComposableQueryResultKind::FreeObject => " := {\n"@ + sel + "\n}"@,
    }
}

/// A type whose selector can be written out and embedded in another query's
/// selector. The selector body never includes the surrounding braces.
pub trait EdgedbComposableSelector {
    /// The result kind this type renders as.
    spec fn result_kind_spec() -> ComposableQueryResultKind;

    /// The selector body this type writes.
    spec fn selector_spec() -> Seq<char>;

    fn result_type() -> (r: ComposableQueryResultKind)
        ensures
            r == Self::result_kind_spec(),
    ;

    /// Appends this type's selector body to `fmt`.
    fn format_selector(fmt: &mut String)
        ensures
            final(fmt)@ == old(fmt)@ + Self::selector_spec(),
    ;

    /// Appends this type's rendering as an embedded sub-query field: nothing
    /// for a bare field, the selector body in braces otherwise.
    fn format_subquery(fmt: &mut String)
        ensures
            final(fmt)@ == old(fmt)@ + subquery_text(
                Self::result_kind_spec(),
                Self::selector_spec(),
            ),
    {
        match Self::result_type() {
            ComposableQueryResultKind::Field => {
                proof {
                    assert(fmt@ =~= old(fmt)@ + Seq::<char>::empty());
                }
            },
            ComposableQueryResultKind::Selector => {
                fmt.append(": {\n");
                Self::format_selector(fmt);
                fmt.append("\n}");
                proof {
                    assert(fmt@ =~= old(fmt)@ + (": {\n"@ + Self::selector_spec() + "\n}"@));
                }
            },
            ComposableQueryResultKind::FreeObject => {
                fmt.append(" := {\n");
                Self::format_selector(fmt);
                fmt.append("\n}");
                proof {
                    assert(fmt@ =~= old(fmt)@ + (" := {\n"@ + Self::selector_spec() + "\n}"@));
                }
            },
        }
    }
}

/// A primitive fetches no fields: its selector body is empty and it embeds
/// as a bare field.
impl<T: EdgedbPrim> EdgedbComposableSelector for T {
    open spec fn result_kind_spec() -> ComposableQueryResultKind {
        ComposableQueryResultKind::Field
    }

    open spec fn selector_spec() -> Seq<char> {
        Seq::<char>::empty()
    }

    fn result_type() -> ComposableQueryResultKind {
        ComposableQueryResultKind::Field
    }

    fn format_selector(fmt: &mut String) {
        proof {
            assert(fmt@ =~= old(fmt)@ + Seq::<char>::empty());
        }
    }
}

/// A sequence fetches what its element fetches.
impl<T: EdgedbComposableSelector> EdgedbComposableSelector for Vec<T> {
    open spec fn result_kind_spec() -> ComposableQueryResultKind {
        T::result_kind_spec()
    }

    open spec fn selector_spec() -> Seq<char> {
        T::selector_spec()
    }

    fn result_type() -> ComposableQueryResultKind {
        T::result_type()
    }

    fn format_selector(fmt: &mut String) {
        T::format_selector(fmt)
    }
}

/// An optional value fetches what its element fetches.
impl<T: EdgedbComposableSelector> EdgedbComposableSelector for Option<T> {
    open spec fn result_kind_spec() -> ComposableQueryResultKind {
        T::result_kind_spec()
    }

    open spec fn selector_spec() -> Seq<char> {
        T::selector_spec()
    }

    fn result_type() -> ComposableQueryResultKind {
        T::result_type()
    }

    fn format_selector(fmt: &mut String) {
        T::format_selector(fmt)
    }
}

/// A non-empty sequence fetches what its element fetches.
impl<T: EdgedbComposableSelector> EdgedbComposableSelector for nonempty::NonEmpty<T> {
    open spec fn result_kind_spec() -> ComposableQueryResultKind {
        T::result_kind_spec()
    }

    open spec fn selector_spec() -> Seq<char> {
        T::selector_spec()
    }

    fn result_type() -> ComposableQueryResultKind {
        T::result_type()
    }

    fn format_selector(fmt: &mut String) {
        T::format_selector(fmt)
    }
}

/// A reference fetches the id and, after it, the referenced type's own
/// selector; the caller's selector decides how much of it the wire carries.
impl<T: EdgedbComposableSelector + EdgedbObject> EdgedbComposableSelector for Ref<T> {
    open spec fn result_kind_spec() -> ComposableQueryResultKind {
        ComposableQueryResultKind::Selector
    }

    open spec fn selector_spec() -> Seq<char> {
        "\tid,\n"@ + T::selector_spec()
    }

    fn result_type() -> ComposableQueryResultKind {
        ComposableQueryResultKind::Selector
    }

    fn format_selector(fmt: &mut String) {
        fmt.append("\tid,\n");
        T::format_selector(fmt);
        proof {
            assert(fmt@ =~= old(fmt)@ + ("\tid,\n"@ + T::selector_spec()));
        }
    }
}

/// `Point` selects its two fields as a free object, the default for a
/// structure with named fields and no selector source.
impl EdgedbComposableSelector for Point {
    open spec fn result_kind_spec() -> ComposableQueryResultKind {
        ComposableQueryResultKind::Selector
    }

    open spec fn selector_spec() -> Seq<char> {
        "\tx := (x),\n\ty := (y),"@
    }

    fn result_type() -> ComposableQueryResultKind {
        ComposableQueryResultKind::Selector
    }

    fn format_selector(fmt: &mut String) {
        fmt.append("\tx := (x),\n\ty := (y),");
    }
}

/// `Inner` selects its two fields as a free object.
impl EdgedbComposableSelector for Inner {
    open spec fn result_kind_spec() -> ComposableQueryResultKind {
        ComposableQueryResultKind::Selector
    }

    open spec fn selector_spec() -> Seq<char> {
        "\treq := (req),\n\topt := (opt),"@
    }

    fn result_type() -> ComposableQueryResultKind {
        ComposableQueryResultKind::Selector
    }

    fn format_selector(fmt: &mut String) {
        fmt.append("\treq := (req),\n\topt := (opt),");
    }
}

} // verus!
