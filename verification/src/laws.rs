//! The rules' guarantees, written out and proved: what each rule set
//! reports, for every entity it can be handed.
use vstd::prelude::*;

use crate::checker::{all_diags, doc_check_diags, DocChecker};
use crate::class::{class_check_diags, class_id};
use crate::entities::{ClassV, MethodV, ParameterV, PropertyV};
use crate::method::{method_check_diags, method_id, spec_is_async};
use crate::parameter::{parameter_check_diags, parameter_id, spec_is_notified};
use crate::property::{
    property_check_diags, property_construct_only_diags, property_doc_diags,
    property_getter_diags, property_id, property_setter_diags, property_unreadable_diags,
    property_unwritable_diags,
};
use crate::warning::{make_warning, Severity, WarningV};

verus! {

/// Any rule set with the documentation check reports an undocumented entity:
/// `check_all`'s findings end with the `Warning`-severity missing-docstring
/// entry, labeled with the rule set's own identifier.
pub proof fn lemma_undocumented_entity_reported<C: DocChecker>(c: &C)
    requires
        c.doc_view() is None,
    ensures
        all_diags(c).len() >= 1,
        all_diags(c).last() == make_warning(
            c.position_view(),
            c.spec_identifier(),
            "missing a docstring"@,
            Severity::Warning,
        ),
{
    let d = doc_check_diags(c.spec_identifier(), c.doc_view(), c.position_view());
    assert(all_diags(c).last() == d[0]);
}

/// An undocumented class yields exactly two findings from its `check_all`:
/// first its own error, then the generic warning, both labeled with the
/// class's identifier.
pub proof fn lemma_undocumented_class_reported(c: ClassV)
    requires
        c.doc is None,
    ensures
        class_check_diags(c) + doc_check_diags(class_id(c), c.doc, c.position) == seq![
            make_warning(c.position, class_id(c), "is missing docs"@, Severity::Error),
            make_warning(c.position, class_id(c), "missing a docstring"@, Severity::Warning),
        ],
{
    assert(class_check_diags(c) + doc_check_diags(class_id(c), c.doc, c.position) =~= seq![
        make_warning(c.position, class_id(c), "is missing docs"@, Severity::Error),
        make_warning(c.position, class_id(c), "missing a docstring"@, Severity::Warning),
    ]);
}

/// A documented class gets no finding from the class rule set's own check
/// and none from the documentation check.
pub proof fn lemma_documented_class_clean(c: ClassV)
    requires
        c.doc is Some,
    ensures
        class_check_diags(c) + doc_check_diags(class_id(c), c.doc, c.position) == Seq::<
            WarningV,
        >::empty(),
{
    assert(class_check_diags(c) + doc_check_diags(class_id(c), c.doc, c.position) =~= Seq::<
        WarningV,
    >::empty());
}

/// An asynchronous method without a finish function yields exactly one
/// `Info` finding; a method with a finish function, or one that is not
/// asynchronous, yields none.
pub proof fn lemma_async_method_reported(m: MethodV, class_name: Seq<char>)
    ensures
        spec_is_async(m) && m.finish_func is None ==> method_check_diags(m, class_name) == seq![
            make_warning(
                m.position,
                method_id(m, class_name),
                "is missing a finish-func"@,
                Severity::Info,
            ),
        ],
        m.finish_func is Some ==> method_check_diags(m, class_name) == Seq::<WarningV>::empty(),
        !spec_is_async(m) ==> method_check_diags(m, class_name) == Seq::<WarningV>::empty(),
{
}

/// A notified parameter is reported once for a missing destroy notifier and
/// once for a missing closure reference; the two findings toggle
/// independently, and a parameter that is not notified gets neither.
pub proof fn lemma_notified_parameter_reported(p: ParameterV, parent: Seq<char>)
    ensures
        spec_is_notified(p) && p.destroy is None && p.closure is None ==> parameter_check_diags(
            p,
            parent,
        ) == seq![
            make_warning(
                p.position,
                parameter_id(p.name, parent),
                "is missing destroy"@,
                Severity::Error,
            ),
            make_warning(
                p.position,
                parameter_id(p.name, parent),
                "is missing closure"@,
                Severity::Error,
            ),
        ],
        spec_is_notified(p) && p.destroy is None && p.closure is Some ==> parameter_check_diags(
            p,
            parent,
        ) == seq![
            make_warning(
                p.position,
                parameter_id(p.name, parent),
                "is missing destroy"@,
                Severity::Error,
            ),
        ],
        spec_is_notified(p) && p.destroy is Some && p.closure is None ==> parameter_check_diags(
            p,
            parent,
        ) == seq![
            make_warning(
                p.position,
                parameter_id(p.name, parent),
                "is missing closure"@,
                Severity::Error,
            ),
        ],
        spec_is_notified(p) && p.destroy is Some && p.closure is Some ==> parameter_check_diags(
            p,
            parent,
        ) == Seq::<WarningV>::empty(),
        !spec_is_notified(p) ==> parameter_check_diags(p, parent) == Seq::<WarningV>::empty(),
{
    if spec_is_notified(p) && p.destroy is None && p.closure is None {
        assert(parameter_check_diags(p, parent) =~= seq![
            make_warning(
                p.position,
                parameter_id(p.name, parent),
                "is missing destroy"@,
                Severity::Error,
            ),
            make_warning(
                p.position,
                parameter_id(p.name, parent),
                "is missing closure"@,
                Severity::Error,
            ),
        ]);
    }
    if spec_is_notified(p) && p.destroy is None && p.closure is Some {
        assert(parameter_check_diags(p, parent) =~= seq![
            make_warning(
                p.position,
                parameter_id(p.name, parent),
                "is missing destroy"@,
                Severity::Error,
            ),
        ]);
    }
    if spec_is_notified(p) && p.destroy is Some && p.closure is None {
        assert(parameter_check_diags(p, parent) =~= seq![
            make_warning(
                p.position,
                parameter_id(p.name, parent),
                "is missing closure"@,
                Severity::Error,
            ),
        ]);
    }
    if spec_is_notified(p) && p.destroy is Some && p.closure is Some {
        assert(parameter_check_diags(p, parent) =~= Seq::<WarningV>::empty());
    }
    if !spec_is_notified(p) {
        assert(parameter_check_diags(p, parent) =~= Seq::<WarningV>::empty());
    }
}

/// Each accessor rule of the property rule set fires on its own condition:
/// readable without a getter is an `Info`, a getter on a non-readable
/// property is an `Error`, writable and not construct-only without a setter
/// is an `Info`, a setter on a non-writable property is an `Error`, and a
/// setter on a construct-only property is an `Error`. A property can
/// accumulate several of these at once.
pub proof fn lemma_property_accessor_rules(p: PropertyV, c: ClassV)
    ensures
        p.readable && p.getter is None ==> property_check_diags(p, c).contains(
            make_warning(p.position, property_id(c, p), "is missing a getter"@, Severity::Info),
        ),
        !p.readable && p.getter is Some ==> property_check_diags(p, c).contains(
            make_warning(
                p.position,
                property_id(c, p),
                "has a getter but it is not readable"@,
                Severity::Error,
            ),
        ),
        p.writable && !p.construct_only && p.setter is None ==> property_check_diags(p, c).contains(
            make_warning(p.position, property_id(c, p), "is missing a setter"@, Severity::Info),
        ),
        !p.writable && p.setter is Some ==> property_check_diags(p, c).contains(
            make_warning(
                p.position,
                property_id(c, p),
                "has a setter but it is not writable"@,
                Severity::Error,
            ),
        ),
        p.construct_only && p.setter is Some ==> property_check_diags(p, c).contains(
            make_warning(
                p.position,
                property_id(c, p),
                "has a setter but it is construct-only"@,
                Severity::Error,
            ),
        ),
{
    let id = property_id(c, p);
    let d = property_doc_diags(p, id);
    let g = property_getter_diags(p, c, id);
    let u = property_unreadable_diags(p, id);
    let s = property_setter_diags(p, c, id);
    let uw = property_unwritable_diags(p, id);
    let co = property_construct_only_diags(p, id);
    let whole = property_check_diags(p, c);
    if p.readable && p.getter is None {
        let w = make_warning(p.position, id, "is missing a getter"@, Severity::Info);
        assert(whole[d.len() as int] == w);
    }
    if !p.readable && p.getter is Some {
        let w = make_warning(
            p.position,
            id,
            "has a getter but it is not readable"@,
            Severity::Error,
        );
        assert(whole[d.len() + g.len() as int] == w);
    }
    if p.writable && !p.construct_only && p.setter is None {
        let w = make_warning(p.position, id, "is missing a setter"@, Severity::Info);
        assert(whole[d.len() + g.len() + u.len() as int] == w);
    }
    if !p.writable && p.setter is Some {
        let w = make_warning(
            p.position,
            id,
            "has a setter but it is not writable"@,
            Severity::Error,
        );
        assert(whole[d.len() + g.len() + u.len() + s.len() as int] == w);
    }
    if p.construct_only && p.setter is Some {
        let w = make_warning(
            p.position,
            id,
            "has a setter but it is construct-only"@,
            Severity::Error,
        );
        assert(whole[d.len() + g.len() + u.len() + s.len() + uw.len() as int] == w);
    }
}

} // verus!
