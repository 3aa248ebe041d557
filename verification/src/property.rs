//! The property rule set: a property's declared accessors must agree with
//! its readable, writable and construct-only flags, and with the method of
//! the same name on the owning class, when there is one.
use vstd::prelude::*;

use crate::checker::{
    appends, concat2, lemma_appends_none, lemma_appends_one, lemma_appends_trans, Checker,
    DocChecker,
};
use crate::entities::{Class, ClassV, Method, MethodV, PosV, Property, PropertyV};
use crate::warning::{make_warning, Severity, Warning, WarningV};

verus! {

/// The label of a property: `"Property <class>:<name>"`.
pub open spec fn property_id(c: ClassV, p: PropertyV) -> Seq<char> {
    "Property "@ + c.name + ":"@ + p.name
}

/// The first method of `ms` named `name`, if any.
pub open spec fn find_method(ms: Seq<MethodV>, name: Seq<char>) -> Option<MethodV>
    decreases ms.len(),
{
    if ms.len() == 0 {
        None
    } else if ms[0].name == name {
        Some(ms[0])
    } else {
        find_method(ms.drop_first(), name)
    }
}

/// When the first match sits at index `k`, the search returns it.
proof fn lemma_find_method_at(ms: Seq<MethodV>, name: Seq<char>, k: int)
    requires
        0 <= k < ms.len(),
        ms[k].name == name,
        forall|j: int| 0 <= j < k ==> (#[trigger] ms[j]).name != name,
    ensures
        find_method(ms, name) == Some(ms[k]),
    decreases k,
{
    if k > 0 {
        lemma_find_method_at(ms.drop_first(), name, k - 1);
    }
}

/// When no method bears the name, the search returns nothing.
proof fn lemma_find_method_absent(ms: Seq<MethodV>, name: Seq<char>)
    requires
        forall|j: int| 0 <= j < ms.len() ==> (#[trigger] ms[j]).name != name,
    ensures
        find_method(ms, name) is None,
    decreases ms.len(),
{
    if ms.len() > 0 {
        lemma_find_method_absent(ms.drop_first(), name);
    }
}

/// The documentation finding of the property rule set's own check: unlike
/// the generic check, a property without documentation is an error.
pub open spec fn property_doc_diags(p: PropertyV, id: Seq<char>) -> Seq<WarningV> {
    if p.doc is None {
        seq![make_warning(p.position, id, "is missing a docstring"@, Severity::Error)]
    } else {
        Seq::<WarningV>::empty()
    }
}

/// The getter findings: a readable property must declare a getter, and a
/// declared getter must agree with the same-named method's getter
/// back-reference, when such a method exists.
pub open spec fn property_getter_diags(p: PropertyV, c: ClassV, id: Seq<char>) -> Seq<WarningV> {
    if p.readable {
        match p.getter {
            Some(g) => match find_method(c.methods, p.name) {
                Some(m) => if m.get_property != Some(g) {
                    seq![
                        make_warning(
                            p.position,
                            id,
                            "has a getter but the getter does not have get-property"@,
                            Severity::Error,
                        ),
                    ]
                } else {
                    Seq::<WarningV>::empty()
                },
                None => Seq::<WarningV>::empty(),
            },
            None => seq![make_warning(p.position, id, "is missing a getter"@, Severity::Info)],
        }
    } else {
        Seq::<WarningV>::empty()
    }
}

/// A property that is not readable must not declare a getter.
pub open spec fn property_unreadable_diags(p: PropertyV, id: Seq<char>) -> Seq<WarningV> {
    if !p.readable && p.getter is Some {
        seq![make_warning(p.position, id, "has a getter but it is not readable"@, Severity::Error)]
    } else {
        Seq::<WarningV>::empty()
    }
}

/// The setter findings: a writable, not construct-only property must
/// declare a setter, and a declared setter must agree with the same-named
/// method's setter back-reference, when such a method exists.
pub open spec fn property_setter_diags(p: PropertyV, c: ClassV, id: Seq<char>) -> Seq<WarningV> {
    if p.writable && !p.construct_only {
        match p.setter {
            Some(st) => match find_method(c.methods, p.name) {
                Some(m) => if m.set_property != Some(st) {
                    seq![
                        make_warning(
                            p.position,
                            id,
                            "has a setter but the setter does not have set-property"@,
                            Severity::Error,
                        ),
                    ]
                } else {
                    Seq::<WarningV>::empty()
                },
                None => Seq::<WarningV>::empty(),
            },
            None => seq![make_warning(p.position, id, "is missing a setter"@, Severity::Info)],
        }
    } else {
        Seq::<WarningV>::empty()
    }
}

/// A property that is not writable must not declare a setter.
pub open spec fn property_unwritable_diags(p: PropertyV, id: Seq<char>) -> Seq<WarningV> {
    if !p.writable && p.setter is Some {
        seq![make_warning(p.position, id, "has a setter but it is not writable"@, Severity::Error)]
    } else {
        Seq::<WarningV>::empty()
    }
}

/// A construct-only property must not declare a setter.
pub open spec fn property_construct_only_diags(p: PropertyV, id: Seq<char>) -> Seq<WarningV> {
    if p.construct_only && p.setter is Some {
        seq![
            make_warning(p.position, id, "has a setter but it is construct-only"@, Severity::Error),
        ]
    } else {
        Seq::<WarningV>::empty()
    }
}

/// The property rule set's own findings, in the order its check raises
/// them.
pub open spec fn property_check_diags(p: PropertyV, c: ClassV) -> Seq<WarningV> {
    let id = property_id(c, p);
    property_doc_diags(p, id) + property_getter_diags(p, c, id) + property_unreadable_diags(p, id)
        + property_setter_diags(p, c, id) + property_unwritable_diags(p, id)
        + property_construct_only_diags(p, id)
}

/// The first method of the class named `name`, if any; see `find_method`.
fn find_method_exec<'m>(methods: &'m Vec<Method>, name: &String) -> (r: Option<&'m Method>)
    ensures
        match r {
            Some(m) => find_method(methods@.map_values(|x: Method| x@), name@) == Some(m@),
            None => find_method(methods@.map_values(|x: Method| x@), name@) is None,
        },
{
    let ghost ms = methods@.map_values(|x: Method| x@);
    let n = methods.len();
    let mut i: usize = 0;
    while i < n
        invariant
            n == methods.len(),
            0 <= i <= n,
            ms == methods@.map_values(|x: Method| x@),
            forall|j: int| 0 <= j < i ==> (#[trigger] ms[j]).name != name@,
        decreases n - i,
    {
        if methods[i].name.eq(name) {
            proof {
                lemma_find_method_at(ms, name@, i as int);
            }
            return Some(&methods[i]);
        }
        i += 1;
    }
    proof {
        lemma_find_method_absent(ms, name@);
    }
    None
}

/// The property rule set: holds the property under check, its owning class,
/// and its label.
pub struct PropertyChecker<'a> {
    class: &'a Class,
    property: &'a Property,
    id: String,
}

impl<'a> PropertyChecker<'a> {
    /// The property this rule set checks.
    pub closed spec fn spec_property(&self) -> PropertyV {
        self.property@
    }

    /// The owning class.
    pub closed spec fn spec_class(&self) -> ClassV {
        self.class@
    }

    /// Builds the rule set over a property of a class, computing its label
    /// once.
    pub fn new(property: &'a Property, class: &'a Class) -> (r: Self)
        ensures
            r.wf(),
            r.spec_property() == property@,
            r.spec_class() == class@,
            r.spec_identifier() == property_id(class@, property@),
            r.check_diags() == property_check_diags(property@, class@),
            r.doc_view() == property@.doc,
            r.position_view() == property@.position,
    {
        let head = concat2("Property ", class.name.as_str());
        let head = concat2(head.as_str(), ":");
        let id = concat2(head.as_str(), property.name.as_str());
        PropertyChecker { class, property, id }
    }
}

impl<'a> Checker for PropertyChecker<'a> {
    closed spec fn wf(&self) -> bool {
        self.id@ == property_id(self.class@, self.property@)
    }

    closed spec fn spec_identifier(&self) -> Seq<char> {
        property_id(self.class@, self.property@)
    }

    closed spec fn check_diags(&self) -> Seq<WarningV> {
        property_check_diags(self.property@, self.class@)
    }

    fn identifier(&self) -> (r: &str) {
        self.id.as_str()
    }

    fn check(&self, warnings: &mut Vec<Warning>) {
        let property = self.property;
        let pos = property.position.as_ref();
        let id = self.identifier();
        let ghost p = self.property@;
        let ghost c = self.class@;
        let ghost sid = property_id(c, p);
        let ghost g0 = warnings@;

        if property.doc.is_none() {
            let w = Warning::error(pos, id, "is missing a docstring");
            proof {
                lemma_appends_one(warnings@, w);
            }
            warnings.push(w);
            proof {
                assert(seq![w@] =~= property_doc_diags(p, sid));
            }
        } else {
            proof {
                lemma_appends_none(warnings@);
                assert(Seq::<WarningV>::empty() =~= property_doc_diags(p, sid));
            }
        }
        let ghost g1 = warnings@;
        assert(appends(g0, g1, property_doc_diags(p, sid)));

        if property.readable {
            match &property.getter {
                Some(getter) => {
                    match find_method_exec(&self.class.methods, &property.name) {
                        Some(m) => {
                            let agrees = match &m.get_property {
                                Some(gp) => gp.eq(getter),
                                None => false,
                            };
                            if !agrees {
                                let w = Warning::error(
                                    pos,
                                    id,
                                    "has a getter but the getter does not have get-property",
                                );
                                proof {
                                    lemma_appends_one(warnings@, w);
                                }
                                warnings.push(w);
                                proof {
                                    assert(seq![w@] =~= property_getter_diags(p, c, sid));
                                }
                            } else {
                                proof {
                                    lemma_appends_none(warnings@);
                                    assert(Seq::<WarningV>::empty() =~= property_getter_diags(
                                        p,
                                        c,
                                        sid,
                                    ));
                                }
                            }
                        },
                        None => {
                            proof {
                                lemma_appends_none(warnings@);
                                assert(Seq::<WarningV>::empty() =~= property_getter_diags(
                                    p,
                                    c,
                                    sid,
                                ));
                            }
                        },
                    }
                },
                None => {
                    let w = Warning::info(pos, id, "is missing a getter");
                    proof {
                        lemma_appends_one(warnings@, w);
                    }
                    warnings.push(w);
                    proof {
                        assert(seq![w@] =~= property_getter_diags(p, c, sid));
                    }
                },
            }
        } else {
            proof {
                lemma_appends_none(warnings@);
                assert(Seq::<WarningV>::empty() =~= property_getter_diags(p, c, sid));
            }
        }
        let ghost g2 = warnings@;
        assert(appends(g1, g2, property_getter_diags(p, c, sid)));

        if !property.readable && property.getter.is_some() {
            let w = Warning::error(pos, id, "has a getter but it is not readable");
            proof {
                lemma_appends_one(warnings@, w);
            }
            warnings.push(w);
            proof {
                assert(seq![w@] =~= property_unreadable_diags(p, sid));
            }
        } else {
            proof {
                lemma_appends_none(warnings@);
                assert(Seq::<WarningV>::empty() =~= property_unreadable_diags(p, sid));
            }
        }
        let ghost g3 = warnings@;
        assert(appends(g2, g3, property_unreadable_diags(p, sid)));

        if property.writable && !property.construct_only {
            match &property.setter {
                Some(setter) => {
                    match find_method_exec(&self.class.methods, &property.name) {
                        Some(m) => {
                            let agrees = match &m.set_property {
                                Some(sp) => sp.eq(setter),
                                None => false,
                            };
                            if !agrees {
                                let w = Warning::error(
                                    pos,
                                    id,
                                    "has a setter but the setter does not have set-property",
                                );
                                proof {
                                    lemma_appends_one(warnings@, w);
                                }
                                warnings.push(w);
                                proof {
                                    assert(seq![w@] =~= property_setter_diags(p, c, sid));
                                }
                            } else {
                                proof {
                                    lemma_appends_none(warnings@);
                                    assert(Seq::<WarningV>::empty() =~= property_setter_diags(
                                        p,
                                        c,
                                        sid,
                                    ));
                                }
                            }
                        },
                        None => {
                            proof {
                                lemma_appends_none(warnings@);
                                assert(Seq::<WarningV>::empty() =~= property_setter_diags(
                                    p,
                                    c,
                                    sid,
                                ));
                            }
                        },
                    }
                },
                None => {
                    let w = Warning::info(pos, id, "is missing a setter");
                    proof {
                        lemma_appends_one(warnings@, w);
                    }
                    warnings.push(w);
                    proof {
                        assert(seq![w@] =~= property_setter_diags(p, c, sid));
                    }
                },
            }
        } else {
            proof {
                lemma_appends_none(warnings@);
                assert(Seq::<WarningV>::empty() =~= property_setter_diags(p, c, sid));
            }
        }
        let ghost g4 = warnings@;
        assert(appends(g3, g4, property_setter_diags(p, c, sid)));

        if !property.writable && property.setter.is_some() {
            let w = Warning::error(pos, id, "has a setter but it is not writable");
            proof {
                lemma_appends_one(warnings@, w);
            }
            warnings.push(w);
            proof {
                assert(seq![w@] =~= property_unwritable_diags(p, sid));
            }
        } else {
            proof {
                lemma_appends_none(warnings@);
                assert(Seq::<WarningV>::empty() =~= property_unwritable_diags(p, sid));
            }
        }
        let ghost g5 = warnings@;
        assert(appends(g4, g5, property_unwritable_diags(p, sid)));

        if property.construct_only && property.setter.is_some() {
            let w = Warning::error(pos, id, "has a setter but it is construct-only");
            proof {
                lemma_appends_one(warnings@, w);
            }
            warnings.push(w);
            proof {
                assert(seq![w@] =~= property_construct_only_diags(p, sid));
            }
        } else {
            proof {
                lemma_appends_none(warnings@);
                assert(Seq::<WarningV>::empty() =~= property_construct_only_diags(p, sid));
            }
        }
        let ghost g6 = warnings@;
        assert(appends(g5, g6, property_construct_only_diags(p, sid)));

        proof {
            lemma_appends_trans(
                g0,
                g1,
                g2,
                property_doc_diags(p, sid),
                property_getter_diags(p, c, sid),
            );
            lemma_appends_trans(
                g0,
                g2,
                g3,
                property_doc_diags(p, sid) + property_getter_diags(p, c, sid),
                property_unreadable_diags(p, sid),
            );
            lemma_appends_trans(
                g0,
                g3,
                g4,
                property_doc_diags(p, sid) + property_getter_diags(p, c, sid)
                    + property_unreadable_diags(p, sid),
                property_setter_diags(p, c, sid),
            );
            lemma_appends_trans(
                g0,
                g4,
                g5,
                property_doc_diags(p, sid) + property_getter_diags(p, c, sid)
                    + property_unreadable_diags(p, sid) + property_setter_diags(p, c, sid),
                property_unwritable_diags(p, sid),
            );
            lemma_appends_trans(
                g0,
                g5,
                g6,
                property_doc_diags(p, sid) + property_getter_diags(p, c, sid)
                    + property_unreadable_diags(p, sid) + property_setter_diags(p, c, sid)
                    + property_unwritable_diags(p, sid),
                property_construct_only_diags(p, sid),
            );
        }
    }
}

impl<'a> DocChecker for PropertyChecker<'a> {
    closed spec fn doc_view(&self) -> Option<Seq<char>> {
        self.property@.doc
    }

    closed spec fn position_view(&self) -> Option<PosV> {
        self.property@.position
    }

    fn check_docs(&self, warnings: &mut Vec<Warning>) {
        let pos = self.property.position.as_ref();
        let id = self.identifier();
        if self.property.doc.is_none() {
            let w = Warning::new(pos, id, "missing a docstring");
            proof {
                lemma_appends_one(warnings@, w);
            }
            warnings.push(w);
            proof {
                assert(seq![w@] =~= crate::checker::doc_check_diags(
                    self.spec_identifier(),
                    self.doc_view(),
                    self.position_view(),
                ));
            }
        } else {
            proof {
                lemma_appends_none(warnings@);
            }
        }
    }
}

} // verus!
