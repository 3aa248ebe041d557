//! The traversal driver: walks the class tree top-down (a class, then its
//! properties, then its methods, then each method's parameters), optionally
//! skipping deprecated classes, properties and methods, runs every rule
//! set's `check_all`, and hands back the report sorted by severity.
//! Parameters are never filtered by deprecation.
use vstd::prelude::*;

use crate::checker::{
    appends, doc_check_diags, lemma_appends_none, lemma_appends_trans, lemma_appends_views,
    CheckAll,
};
use crate::class::{class_check_diags, class_id, ClassChecker};
use crate::entities::{Class, ClassV, Method, MethodV, ParameterV, PropertyV};
use crate::method::{method_check_diags, method_id, MethodChecker};
use crate::parameter::{parameter_check_diags, parameter_id, ParameterChecker};
use crate::property::{property_check_diags, property_id, PropertyChecker};
use crate::sorting::{sort_warnings, sorted_views, views_of, sorted_warnings};
use crate::warning::{Warning, WarningV};

verus! {

/// How the driver is configured.
pub struct Options {
    /// Skip deprecated classes, properties and methods entirely.
    pub ignore_deprecated: bool,
}

/// The display name a method lends its parameters: its canonical identifier
/// when it has one, else its plain name.
pub open spec fn method_parent_name(m: MethodV) -> Seq<char> {
    match m.c_identifier {
        Some(ci) => ci,
        None => m.name,
    }
}

/// Everything the parameter rule set reports for one parameter: its own
/// findings, then the documentation finding.
pub open spec fn parameter_all_diags(p: ParameterV, parent: Seq<char>) -> Seq<WarningV> {
    parameter_check_diags(p, parent) + doc_check_diags(
        parameter_id(p.name, parent),
        p.doc,
        p.position,
    )
}

/// The findings for the parameters of a method from index `i` on.
pub open spec fn params_diags_from(ps: Seq<ParameterV>, parent: Seq<char>, i: int) -> Seq<WarningV>
    decreases ps.len() - i,
{
    if 0 <= i < ps.len() {
        parameter_all_diags(ps[i], parent) + params_diags_from(ps, parent, i + 1)
    } else {
        Seq::<WarningV>::empty()
    }
}

/// Everything reported for one method: its own findings, its documentation
/// finding, then its parameters' findings in order.
pub open spec fn method_unit_diags(m: MethodV, c: ClassV) -> Seq<WarningV> {
    method_check_diags(m, c.name) + doc_check_diags(method_id(m, c.name), m.doc, m.position)
        + params_diags_from(m.parameters, method_parent_name(m), 0)
}

/// Everything the property rule set reports for one property: its own
/// findings, then the documentation finding.
pub open spec fn property_all_diags(p: PropertyV, c: ClassV) -> Seq<WarningV> {
    property_check_diags(p, c) + doc_check_diags(property_id(c, p), p.doc, p.position)
}

/// The findings for the properties of a class from index `i` on, skipping
/// deprecated properties when asked to.
pub open spec fn properties_diags_from(c: ClassV, i: int, ignore: bool) -> Seq<WarningV>
    decreases c.properties.len() - i,
{
    if 0 <= i < c.properties.len() {
        (if ignore && c.properties[i].deprecated {
            Seq::<WarningV>::empty()
        } else {
            property_all_diags(c.properties[i], c)
        }) + properties_diags_from(c, i + 1, ignore)
    } else {
        Seq::<WarningV>::empty()
    }
}

/// The findings for the methods of a class from index `i` on, skipping
/// deprecated methods when asked to.
pub open spec fn methods_diags_from(c: ClassV, i: int, ignore: bool) -> Seq<WarningV>
    decreases c.methods.len() - i,
{
    if 0 <= i < c.methods.len() {
        (if ignore && c.methods[i].deprecated {
            Seq::<WarningV>::empty()
        } else {
            method_unit_diags(c.methods[i], c)
        }) + methods_diags_from(c, i + 1, ignore)
    } else {
        Seq::<WarningV>::empty()
    }
}

/// Everything reported for one class: its own findings, its documentation
/// finding, its properties' findings, then its methods' findings.
pub open spec fn class_unit_diags(c: ClassV, ignore: bool) -> Seq<WarningV> {
    class_check_diags(c) + doc_check_diags(class_id(c), c.doc, c.position) + properties_diags_from(
        c,
        0,
        ignore,
    ) + methods_diags_from(c, 0, ignore)
}

/// The findings for the classes from index `i` on, skipping deprecated
/// classes when asked to.
pub open spec fn namespace_diags_from(cs: Seq<ClassV>, i: int, ignore: bool) -> Seq<WarningV>
    decreases cs.len() - i,
{
    if 0 <= i < cs.len() {
        (if ignore && cs[i].deprecated {
            Seq::<WarningV>::empty()
        } else {
            class_unit_diags(cs[i], ignore)
        }) + namespace_diags_from(cs, i + 1, ignore)
    } else {
        Seq::<WarningV>::empty()
    }
}

/// Every finding for a sequence of classes, in traversal order.
pub open spec fn namespace_diags(cs: Seq<ClassV>, ignore: bool) -> Seq<WarningV> {
    namespace_diags_from(cs, 0, ignore)
}

/// Checks every parameter of a method; parameters are never filtered by
/// deprecation.
fn check_parameters(method: &Method, class: &Class, warnings: &mut Vec<Warning>)
    ensures
        appends(
            old(warnings)@,
            final(warnings)@,
            params_diags_from(method@.parameters, method_parent_name(method@), 0),
        ),
{
    let parent_name: &str = match &method.c_identifier {
        Some(ci) => ci.as_str(),
        None => method.name.as_str(),
    };
    let ghost ps = method@.parameters;
    let ghost pn = method_parent_name(method@);
    let ghost base = warnings@;
    let ghost mut sofar = Seq::<WarningV>::empty();
    proof {
        lemma_appends_none(base);
        assert(sofar + params_diags_from(ps, pn, 0) =~= params_diags_from(ps, pn, 0));
    }
    let n = method.parameters.len();
    let mut i: usize = 0;
    while i < n
        invariant
            n == method.parameters.len(),
            0 <= i <= n,
            ps == method@.parameters,
            pn == parent_name@,
            appends(base, warnings@, sofar),
            params_diags_from(ps, pn, 0) == sofar + params_diags_from(ps, pn, i as int),
        decreases n - i,
    {
        let checker = ParameterChecker::new(&method.parameters[i], parent_name, class);
        let ghost before = warnings@;
        let ghost unit = parameter_all_diags(ps[i as int], pn);
        checker.check_all(warnings);
        proof {
            assert(checker.all_check_diags() =~= unit);
            lemma_appends_trans(base, before, warnings@, sofar, unit);
            assert(params_diags_from(ps, pn, i as int) == unit + params_diags_from(
                ps,
                pn,
                i as int + 1,
            ));
            assert(sofar + (unit + params_diags_from(ps, pn, i as int + 1)) =~= (sofar + unit) + params_diags_from(
                ps,
                pn,
                i as int + 1,
            ));
            sofar = sofar + unit;
        }
        i += 1;
    }
    proof {
        assert(sofar + params_diags_from(ps, pn, n as int) =~= sofar);
    }
}

/// Checks one method and its parameters.
fn check_method_unit(method: &Method, class: &Class, warnings: &mut Vec<Warning>)
    ensures
        appends(old(warnings)@, final(warnings)@, method_unit_diags(method@, class@)),
{
    let checker = MethodChecker::new(method, class);
    let ghost a = warnings@;
    checker.check_all(warnings);
    let ghost b = warnings@;
    let ghost own = checker.all_check_diags();
    check_parameters(method, class, warnings);
    proof {
        let params = params_diags_from(method@.parameters, method_parent_name(method@), 0);
        lemma_appends_trans(a, b, warnings@, own, params);
        assert(own + params =~= method_unit_diags(method@, class@));
    }
}

/// Checks one class, its properties, and its methods with their parameters.
fn check_class_unit(class: &Class, options: &Options, warnings: &mut Vec<Warning>)
    ensures
        appends(
            old(warnings)@,
            final(warnings)@,
            class_unit_diags(class@, options.ignore_deprecated),
        ),
{
    let ghost c = class@;
    let ghost ignore = options.ignore_deprecated;
    let checker = ClassChecker::new(class);
    let ghost a = warnings@;
    checker.check_all(warnings);
    let ghost b = warnings@;
    let ghost own = checker.all_check_diags();

    let ghost mut sofar = Seq::<WarningV>::empty();
    proof {
        lemma_appends_none(b);
        assert(sofar + properties_diags_from(c, 0, ignore) =~= properties_diags_from(c, 0, ignore));
    }
    let np = class.properties.len();
    let mut i: usize = 0;
    while i < np
        invariant
            np == class.properties.len(),
            0 <= i <= np,
            c == class@,
            ignore == options.ignore_deprecated,
            appends(b, warnings@, sofar),
            properties_diags_from(c, 0, ignore) == sofar + properties_diags_from(
                c,
                i as int,
                ignore,
            ),
        decreases np - i,
    {
        let ghost before = warnings@;
        let ghost unit = (if ignore && c.properties[i as int].deprecated {
            Seq::<WarningV>::empty()
        } else {
            property_all_diags(c.properties[i as int], c)
        });
        if options.ignore_deprecated && class.properties[i].deprecated {
            proof {
                lemma_appends_none(warnings@);
                assert(unit =~= Seq::<WarningV>::empty());
            }
        } else {
            let prop_checker = PropertyChecker::new(&class.properties[i], class);
            prop_checker.check_all(warnings);
            proof {
                assert(prop_checker.all_check_diags() =~= unit);
            }
        }
        proof {
            lemma_appends_trans(b, before, warnings@, sofar, unit);
            assert(properties_diags_from(c, i as int, ignore) == unit + properties_diags_from(
                c,
                i as int + 1,
                ignore,
            ));
            assert(sofar + (unit + properties_diags_from(c, i as int + 1, ignore)) =~= (sofar
                + unit) + properties_diags_from(c, i as int + 1, ignore));
            sofar = sofar + unit;
        }
        i += 1;
    }
    proof {
        assert(sofar + properties_diags_from(c, np as int, ignore) =~= sofar);
    }
    let ghost props = sofar;
    let ghost d = warnings@;

    let ghost mut msofar = Seq::<WarningV>::empty();
    proof {
        lemma_appends_none(d);
        assert(msofar + methods_diags_from(c, 0, ignore) =~= methods_diags_from(c, 0, ignore));
    }
    let nm = class.methods.len();
    let mut j: usize = 0;
    while j < nm
        invariant
            nm == class.methods.len(),
            0 <= j <= nm,
            c == class@,
            ignore == options.ignore_deprecated,
            appends(d, warnings@, msofar),
            methods_diags_from(c, 0, ignore) == msofar + methods_diags_from(c, j as int, ignore),
        decreases nm - j,
    {
        let ghost before = warnings@;
        let ghost unit = (if ignore && c.methods[j as int].deprecated {
            Seq::<WarningV>::empty()
        } else {
            method_unit_diags(c.methods[j as int], c)
        });
        if options.ignore_deprecated && class.methods[j].deprecated {
            proof {
                lemma_appends_none(warnings@);
                assert(unit =~= Seq::<WarningV>::empty());
            }
        } else {
            check_method_unit(&class.methods[j], class, warnings);
        }
        proof {
            lemma_appends_trans(d, before, warnings@, msofar, unit);
            assert(methods_diags_from(c, j as int, ignore) == unit + methods_diags_from(
                c,
                j as int + 1,
                ignore,
            ));
            assert(msofar + (unit + methods_diags_from(c, j as int + 1, ignore)) =~= (msofar + unit)
                + methods_diags_from(c, j as int + 1, ignore));
            msofar = msofar + unit;
        }
        j += 1;
    }
    proof {
        assert(msofar + methods_diags_from(c, nm as int, ignore) =~= msofar);
        lemma_appends_trans(a, b, d, own, props);
        lemma_appends_trans(a, d, warnings@, own + props, msofar);
        assert((own + props) + msofar =~= class_unit_diags(c, ignore));
    }
}

/// Checks every class of a namespace, skipping deprecated classes when
/// asked to, and returns the full report sorted by severity, gravest first.
pub fn check_namespace(classes: &Vec<Class>, options: &Options) -> (r: Vec<Warning>)
    ensures
        views_of(r@) == sorted_views(
            namespace_diags(
                classes@.map_values(|c: Class| c@),
                options.ignore_deprecated,
            ),
        ),
{
    let ghost cs = classes@.map_values(|c: Class| c@);
    let ghost ignore = options.ignore_deprecated;
    let mut warnings: Vec<Warning> = Vec::new();
    let ghost base = warnings@;
    let ghost mut sofar = Seq::<WarningV>::empty();
    proof {
        lemma_appends_none(base);
        assert(sofar + namespace_diags_from(cs, 0, ignore) =~= namespace_diags_from(cs, 0, ignore));
    }
    let n = classes.len();
    let mut i: usize = 0;
    while i < n
        invariant
            n == classes.len(),
            0 <= i <= n,
            cs == classes@.map_values(|c: Class| c@),
            ignore == options.ignore_deprecated,
            appends(base, warnings@, sofar),
            namespace_diags_from(cs, 0, ignore) == sofar + namespace_diags_from(
                cs,
                i as int,
                ignore,
            ),
        decreases n - i,
    {
        let ghost before = warnings@;
        let ghost unit = (if ignore && cs[i as int].deprecated {
            Seq::<WarningV>::empty()
        } else {
            class_unit_diags(cs[i as int], ignore)
        });
        if options.ignore_deprecated && classes[i].deprecated {
            proof {
                lemma_appends_none(warnings@);
                assert(unit =~= Seq::<WarningV>::empty());
            }
        } else {
            check_class_unit(&classes[i], options, &mut warnings);
        }
        proof {
            lemma_appends_trans(base, before, warnings@, sofar, unit);
            assert(namespace_diags_from(cs, i as int, ignore) == unit + namespace_diags_from(
                cs,
                i as int + 1,
                ignore,
            ));
            assert(sofar + (unit + namespace_diags_from(cs, i as int + 1, ignore)) =~= (sofar
                + unit) + namespace_diags_from(cs, i as int + 1, ignore));
            sofar = sofar + unit;
        }
        i += 1;
    }
    proof {
        assert(sofar + namespace_diags_from(cs, n as int, ignore) =~= sofar);
        lemma_appends_views(base, warnings@, namespace_diags(cs, ignore));
        assert(views_of(base) + namespace_diags(cs, ignore) =~= namespace_diags(cs, ignore));
        crate::sorting::lemma_views_sorted(warnings@);
    }
    let ghost collected = warnings@;
    let r = sort_warnings(warnings);
    proof {
        assert(r@ == sorted_warnings(collected));
    }
    r
}

} // verus!
