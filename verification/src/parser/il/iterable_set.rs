//! The variables that an iteration binds, and their kinds.
use vstd::prelude::*;
use crate::consts::{InputSpan, Spanned};
use crate::parser::model_transformer::model::VariableKind;
use crate::parser::model_transformer::transform_error::{TransformError, ErrorModel, located};
use crate::primitives::primitive::{PrimitiveKind, KindModel, spec_spread_kinds, kind_models};
use crate::text::views;

verus! {

/// A bound variable as plain values: its name, where it is written, and its
/// kind.
pub type BindingView = (Seq<char>, InputSpan, KindModel);

/// A list of bound variables as plain values.
pub open spec fn binding_views(v: Seq<(Spanned<String>, PrimitiveKind)>) -> Seq<BindingView> {
    v.map_values(|b: (Spanned<String>, PrimitiveKind)| (b.0.spec_value()@, b.0.spec_span(), b.1.model()))
}

/// A name bound to a kind, as plain values.
pub open spec fn bind(name: Spanned<String>, k: KindModel) -> BindingView {
    (name.spec_value()@, name.spec_span(), k)
}

/// The names of a list of located names.
pub open spec fn located_names(v: Seq<Spanned<String>>) -> Seq<Seq<char>> {
    v.map_values(|n: Spanned<String>| n.spec_value()@)
}

/// The bindings that an iteration over values of kind `iter` makes, or the
/// error that refuses it (see `variable_types`).
pub open spec fn spec_variable_types(var: VariableKind, iter: KindModel, span: InputSpan) -> Result<
    Seq<BindingView>,
    ErrorModel,
> {
    match iter {
        KindModel::Iterable(el) => match var {
            VariableKind::Single(name) => Ok(seq![bind(name, *el)]),
            VariableKind::Tuple(vars) => match *el {
                KindModel::Iterable(k) => Ok(vars@.map_values(|v: Spanned<String>| bind(v, *k))),
                _ => match spec_spread_kinds(*el) {
                    None => Err(ErrorModel::Unspreadable(*el)),
                    Some(ks) => if vars@.len() > ks.len() {
                        Err(
                            located(
                                ErrorModel::SpreadError { to_spread: *el, in_variables: located_names(vars@) },
                                span,
                            ),
                        )
                    } else {
                        Ok(
                            vars@.map_values(|v: Spanned<String>| v).take(vars@.len() as int).zip_with(
                                ks.take(vars@.len() as int),
                            ).map_values(|p: (Spanned<String>, KindModel)| bind(p.0, p.1)),
                        )
                    },
                },
            },
        },
        _ => Err(
            located(ErrorModel::WrongArgument { got: iter, expected: KindModel::Iterable(Box::new(KindModel::Any)) }, span),
        ),
    }
}

/// A result of `variable_types` as plain values.
pub open spec fn bindings_result(r: Result<Vec<(Spanned<String>, PrimitiveKind)>, TransformError>) -> Result<
    Seq<BindingView>,
    ErrorModel,
> {
    match r {
        Ok(v) => Ok(binding_views(v@)),
        Err(e) => Err(e.model()),
    }
}

/// A copy of a located name./// A copy of a located name.
fn copy_name(n: &Spanned<String>) -> (r: Spanned<String>)
    ensures
        r.spec_value()@ == n.spec_value()@,
        r.spec_span() == n.spec_span(),
{
    Spanned::new(n.get_span_value().clone(), *n.get_span())
}

/// The kinds of the variables that an iteration binds, given the kind of
/// what it iterates over, which must be a list. A single variable takes the
/// kind of the elements. A tuple of variables over a list of lists takes
/// the inner kind for each variable; over a list of spreadable values, the
/// kinds that the values spread into, in order, as far as there are
/// variables; more variables than parts is an error located at `span`.
pub fn variable_types(var: &VariableKind, iter_type: PrimitiveKind, span: InputSpan) -> (r: Result<
    Vec<(Spanned<String>, PrimitiveKind)>,
    TransformError,
>)
    ensures
        bindings_result(r) == spec_variable_types(*var, iter_type.model(), span),
        !(iter_type.model() is Iterable) ==> r == Err::<Vec<(Spanned<String>, PrimitiveKind)>, _>(
            (TransformError::WrongArgument {
                got: iter_type,
                expected: PrimitiveKind::Iterable(Box::new(PrimitiveKind::Any)),
            }).spec_add_span(span),
        ),
        iter_type.model() matches KindModel::Iterable(el) ==> match *var {
            VariableKind::Single(name) => r is Ok && binding_views(r->Ok_0@) == seq![bind(name, *el)],
            VariableKind::Tuple(vars) => match *el {
                KindModel::Iterable(k) => r is Ok && binding_views(r->Ok_0@) == vars@.map_values(
                    |v: Spanned<String>| bind(v, *k),
                ),
                _ => match spec_spread_kinds(*el) {
                    None => r is Err && r->Err_0 is Unspreadable && r->Err_0->Unspreadable_0.model() == *el,
                    Some(ks) => if vars@.len() > ks.len() {
                        r is Err && r->Err_0 is SpannedError && r->Err_0.spec_span() == span
                            && r->Err_0->value is None && r->Err_0.spec_inner() is SpreadError
                            && r->Err_0.spec_inner()->to_spread.model() == *el && views(
                            r->Err_0.spec_inner()->in_variables@,
                        ) == located_names(vars@)
                    } else {
                        r is Ok && binding_views(r->Ok_0@) == vars@.map_values(
                            |v: Spanned<String>| v,
                        ).take(vars@.len() as int).zip_with(ks.take(vars@.len() as int)).map_values(
                            |p: (Spanned<String>, KindModel)| bind(p.0, p.1),
                        )
                    },
                },
            },
        },
{
    let element = match iter_type {
        PrimitiveKind::Iterable(kind) => *kind,
        _ => {
            let e = TransformError::WrongArgument {
                got: iter_type,
                expected: PrimitiveKind::Iterable(Box::new(PrimitiveKind::Any)),
            };
            proof {
                e.lemma_model_add_span(span);
                assert(PrimitiveKind::Any.model() == KindModel::Any);
                assert(PrimitiveKind::Iterable(Box::new(PrimitiveKind::Any)).model() == KindModel::Iterable(
                    Box::new(KindModel::Any),
                ));
            }
            return Err(e.add_span(&span));
        },
    };
    match var {
        VariableKind::Single(name) => {
            let r = vec![(copy_name(name), element)];
            proof {
                assert(binding_views(r@) =~= seq![bind(*name, element.model())]);
            }
            Ok(r)
        },
        VariableKind::Tuple(vars) => {
            match &element {
                PrimitiveKind::Iterable(kind) => {
                    let mut out: Vec<(Spanned<String>, PrimitiveKind)> = Vec::new();
                    let mut i: usize = 0;
                    while i < vars.len()
                        invariant
                            i <= vars@.len(),
                            out@.len() == i,
                            forall|j: int|
                                0 <= j < i ==> #[trigger] binding_views(out@)[j] == bind(
                                    vars@[j],
                                    kind.model(),
                                ),
                        decreases vars@.len() - i,
                    {
                        let k = (**kind).duplicate();
                        let ghost before = out@;
                        out.push((copy_name(&vars[i]), k));
                        proof {
                            assert forall|j: int| 0 <= j < i + 1 implies #[trigger] binding_views(out@)[j]
                                == bind(vars@[j], kind.model()) by {
                                if j < i {
                                    assert(binding_views(out@)[j] == binding_views(before)[j]);
                                }
                            }
                        }
                        i += 1;
                    }
                    proof {
                        assert(binding_views(out@) =~= vars@.map_values(
                            |v: Spanned<String>| bind(v, kind.model()),
                        ));
                    }
                    Ok(out)
                },
                _ => {
                    let spreads_into = match element.can_spread_into() {
                        Ok(ks) => ks,
                        Err(e) => {
                            return Err(e);
                        },
                    };
                    proof {
                        crate::primitives::primitive::lemma_kind_models_len(spreads_into@);
                    }
                    if vars.len() > spreads_into.len() {
                        let mut names: Vec<String> = Vec::new();
                        let mut i: usize = 0;
                        while i < vars.len()
                            invariant
                                i <= vars@.len(),
                                names@.len() == i,
                                forall|j: int| 0 <= j < i ==> #[trigger] names@[j]@ == vars@[j].spec_value()@,
                            decreases vars@.len() - i,
                        {
                            names.push(vars[i].get_span_value().clone());
                            i += 1;
                        }
                        proof {
                            assert(views(names@) =~= located_names(vars@));
                        }
                        let err = TransformError::SpreadError { to_spread: element, in_variables: names };
                        let r = err.add_span(&span);
                        proof {
                            Spanned::lemma_spec_new(Box::new(err), span);
                            err.lemma_model_add_span(span);
                        }
                        return Err(r);
                    }
                    let ghost ks = kind_models(spreads_into@);
                    let mut out: Vec<(Spanned<String>, PrimitiveKind)> = Vec::new();
                    let mut i: usize = 0;
                    while i < vars.len()
                        invariant
                            i <= vars@.len(),
                            vars@.len() <= spreads_into@.len(),
                            ks == kind_models(spreads_into@),
                            ks.len() == spreads_into@.len(),
                            out@.len() == i,
                            forall|j: int| 0 <= j < i ==> #[trigger] binding_views(out@)[j] == bind(vars@[j], ks[j]),
                        decreases vars@.len() - i,
                    {
                        proof {
                            crate::primitives::primitive::lemma_kind_models_index(spreads_into@, i as int);
                        }
                        let k = spreads_into[i].duplicate();
                        let ghost before = out@;
                        out.push((copy_name(&vars[i]), k));
                        proof {
                            assert forall|j: int| 0 <= j < i + 1 implies #[trigger] binding_views(out@)[j]
                                == bind(vars@[j], ks[j]) by {
                                if j < i {
                                    assert(binding_views(out@)[j] == binding_views(before)[j]);
                                }
                            }
                        }
                        i += 1;
                    }
                    proof {
                        let n = vars@.len() as int;
                        assert(binding_views(out@) =~= vars@.map_values(|v: Spanned<String>| v).take(n).zip_with(
                            ks.take(n),
                        ).map_values(|p: (Spanned<String>, KindModel)| bind(p.0, p.1)));
                    }
                    Ok(out)
                },
            }
        },
    }
}

} // verus!
