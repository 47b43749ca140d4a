//! `schema-class-self-mismatch` and `no-constructor-override-in-schema-class`.
use vstd::prelude::*;

use crate::ast::{ClassDecl, Expr};
use crate::diagnostics::{Category, RuleMeta, Severity, Span};
use crate::effect_imports::EffectImports;
use crate::matchers::{call_module_prop, call_module_prop_spec};
use crate::rules::{none, one, FileCtx, Finding};
use crate::text::{concat3, concat5, str_eq};

verus! {

/// Catalog metadata of `schema-class-self-mismatch`.
#[verifier::allow_in_spec]
pub fn self_mismatch_meta() -> RuleMeta
    returns
        (RuleMeta {
            id: "schema-class-self-mismatch",
            severity: Severity::Error,
            category: Category::Correctness,
            help: "The Self type parameter of Schema.Class/TaggedClass/TaggedError must be the declaring class itself, or every static helper is typed against the wrong class.",
        }),
{
    RuleMeta {
        id: "schema-class-self-mismatch",
        severity: Severity::Error,
        category: Category::Correctness,
        help: "The Self type parameter of Schema.Class/TaggedClass/TaggedError must be the declaring class itself, or every static helper is typed against the wrong class.",
    }
}

/// Catalog metadata of `no-constructor-override-in-schema-class`.
#[verifier::allow_in_spec]
pub fn constructor_override_meta() -> RuleMeta
    returns
        (RuleMeta {
            id: "no-constructor-override-in-schema-class",
            severity: Severity::Error,
            category: Category::Correctness,
            help: "Schema classes control construction for decoding — overriding the constructor breaks decode. Use a static make/factory or field transformations instead.",
        }),
{
    RuleMeta {
        id: "no-constructor-override-in-schema-class",
        severity: Severity::Error,
        category: Category::Correctness,
        help: "Schema classes control construction for decoding — overriding the constructor breaks decode. Use a static make/factory or field transformations instead.",
    }
}

/// The `Schema` members that build a class.
pub open spec fn is_schema_class_factory_spec(prop: Seq<char>) -> bool {
    ||| prop == "Class"@
    ||| prop == "TaggedClass"@
    ||| prop == "TaggedError"@
    ||| prop == "TaggedErrorClass"@
    ||| prop == "TaggedRequest"@
}

/// Is `prop` a `Schema` class factory?
pub fn is_schema_class_factory(prop: &str) -> (found: bool)
    ensures
        found == is_schema_class_factory_spec(prop@),
{
    str_eq(prop, "Class") || str_eq(prop, "TaggedClass") || str_eq(prop, "TaggedError") || str_eq(prop, "TaggedErrorClass")
        || str_eq(prop, "TaggedRequest")
}

/// Following the callees of a superclass expression such as
/// `Schema.Class<Self>("X")({...})`, the first `Schema.*` call: for a class
/// factory, its `Self` type argument and where it stands; otherwise nothing.
pub open spec fn schema_self_type_spec(e: Expr, bindings: Map<Seq<char>, Seq<char>>) -> Option<(Seq<char>, Span)>
    decreases e,
{
    match e {
        Expr::Call(call) => match call_module_prop_spec(*call, bindings) {
            Some((module, prop)) => if module == "Schema"@ {
                if !is_schema_class_factory_spec(prop) {
                    None
                } else {
                    match call.type_argument {
                        Some((name, span)) => Some((name@, span)),
                        None => None,
                    }
                }
            } else {
                schema_self_type_spec(call.callee, bindings)
            },
            None => schema_self_type_spec(call.callee, bindings),
        },
        _ => None,
    }
}

/// Following the callees of a superclass expression, the first `Schema.*`
/// call is a class factory.
pub open spec fn extends_schema_class_spec(e: Expr, bindings: Map<Seq<char>, Seq<char>>) -> bool
    decreases e,
{
    match e {
        Expr::Call(call) => match call_module_prop_spec(*call, bindings) {
            Some((module, prop)) => if module == "Schema"@ {
                is_schema_class_factory_spec(prop)
            } else {
                extends_schema_class_spec(call.callee, bindings)
            },
            None => extends_schema_class_spec(call.callee, bindings),
        },
        _ => false,
    }
}

/// The `Self` type argument of the Schema class a superclass builds.
pub fn schema_self_type<'b>(e: &'b Expr, imports: &'b EffectImports) -> (found: Option<(&'b str, Span)>)
    ensures
        match found {
            Some((name, span)) => schema_self_type_spec(*e, imports.bindings()) == Some((name@, span)),
            None => schema_self_type_spec(*e, imports.bindings()) is None,
        },
    decreases e,
{
    match e {
        Expr::Call(call) => {
            match call_module_prop(&**call, imports) {
                Some((module, prop)) => {
                    if str_eq(module, "Schema") {
                        if !is_schema_class_factory(prop) {
                            return None;
                        }
                        return match &call.type_argument {
                            Some((name, span)) => Some((name.as_str(), *span)),
                            None => None,
                        };
                    }
                },
                None => {},
            }
            schema_self_type(&call.callee, imports)
        },
        _ => None,
    }
}

/// Does the superclass expression build a Schema class?
pub fn extends_schema_class(e: &Expr, imports: &EffectImports) -> (found: bool)
    ensures
        found == extends_schema_class_spec(*e, imports.bindings()),
    decreases e,
{
    match e {
        Expr::Call(call) => {
            match call_module_prop(&**call, imports) {
                Some((module, prop)) => {
                    if str_eq(module, "Schema") {
                        return is_schema_class_factory(prop);
                    }
                },
                None => {},
            }
            extends_schema_class(&call.callee, imports)
        },
        _ => false,
    }
}

/// A `Self` type argument that names another class than the declaring one.
pub open spec fn self_mismatch_findings(class_name: Seq<char>, superclass: Expr, bindings: Map<Seq<char>, Seq<char>>) -> Seq<Finding> {
    match schema_self_type_spec(superclass, bindings) {
        Some((self_name, span)) => if self_name != class_name {
            one(
                self_mismatch_meta(),
                span,
                "Self type parameter is `"@ + self_name + "` but the declaring class is `"@ + class_name + "`"@,
            )
        } else {
            none()
        },
        None => none(),
    }
}

/// One finding per constructor, in order.
pub open spec fn constructor_findings(class_name: Seq<char>, constructors: Seq<Span>) -> Seq<Finding>
    decreases constructors.len(),
{
    if constructors.len() == 0 {
        none()
    } else {
        constructor_findings(class_name, constructors.drop_last()) + one(
            constructor_override_meta(),
            constructors.last(),
            "constructor override in Schema class `"@ + class_name + "` breaks decoding"@,
        )
    }
}

/// A named class with a superclass: the `Self` mismatch, then, when the
/// superclass builds a Schema class, every constructor.
pub open spec fn schema_class_hygiene_findings(class: ClassDecl, bindings: Map<Seq<char>, Seq<char>>) -> Seq<Finding> {
    match (class.super_class, class.name) {
        (Some(superclass), Some(name)) => self_mismatch_findings(name@, superclass, bindings) + if extends_schema_class_spec(
            superclass,
            bindings,
        ) {
            constructor_findings(name@, class.constructors@)
        } else {
            none()
        },
        _ => none(),
    }
}

pub struct SchemaClassHygiene;

impl SchemaClassHygiene {
    /// The rule ids this rule owns.
    pub fn metas(&self) -> (metas: Vec<RuleMeta>)
        ensures
            metas@ == seq![self_mismatch_meta(), constructor_override_meta()],
    {
        let mut metas: Vec<RuleMeta> = Vec::new();
        metas.push(self_mismatch_meta());
        metas.push(constructor_override_meta());
        metas
    }

    /// A class.
    pub fn on_class(&self, class: &ClassDecl, ctx: &mut FileCtx)
        ensures
            final(ctx).findings() == old(ctx).findings() + schema_class_hygiene_findings(*class, old(ctx).imports.bindings()),
            final(ctx).same_walk(old(ctx)),
    {
        let (superclass, class_name) = match (&class.super_class, &class.name) {
            (Some(s), Some(n)) => (s, n.as_str()),
            _ => {
                assert(old(ctx).findings() + none() =~= old(ctx).findings());
                return;
            },
        };
        let ghost bindings = ctx.imports.bindings();
        let mismatch = match schema_self_type(superclass, &ctx.imports) {
            Some((self_name, span)) => if !str_eq(self_name, class_name) {
                Some((concat5("Self type parameter is `", self_name, "` but the declaring class is `", class_name, "`"), span))
            } else {
                None
            },
            None => None,
        };
        match mismatch {
            Some((message, span)) => {
                ctx.report(self_mismatch_meta(), span, message);
            },
            None => {},
        }
        let ghost after_mismatch = ctx.findings();
        assert(after_mismatch =~= old(ctx).findings() + self_mismatch_findings(class_name@, *superclass, bindings));
        if !extends_schema_class(superclass, &ctx.imports) {
            assert(old(ctx).findings() + schema_class_hygiene_findings(*class, bindings) =~= ctx.findings());
            return;
        }
        let mut i: usize = 0;
        assert(class.constructors@.take(0) =~= Seq::<Span>::empty());
        while i < class.constructors.len()
            invariant
                i <= class.constructors@.len(),
                ctx.findings() == after_mismatch + constructor_findings(class_name@, class.constructors@.take(i as int)),
                ctx.same_walk(old(ctx)),
            decreases class.constructors@.len() - i,
        {
            assert(class.constructors@.take(i + 1).drop_last() =~= class.constructors@.take(i as int));
            let message = concat3("constructor override in Schema class `", class_name, "` breaks decoding");
            ctx.report(constructor_override_meta(), class.constructors[i], message);
            assert(ctx.findings() =~= after_mismatch + constructor_findings(class_name@, class.constructors@.take(i + 1)));
            i += 1;
        }
        assert(class.constructors@.take(i as int) =~= class.constructors@);
        assert(old(ctx).findings() + schema_class_hygiene_findings(*class, bindings) =~= ctx.findings());
    }
}

} // verus!
