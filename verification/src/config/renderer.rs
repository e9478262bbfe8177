use vstd::prelude::*;

use super::flags::RendererFlags;
use crate::models::schema::Namespace;

verus! {

/// How namespaces are serialized by the generated `quick_xml` serializer.
#[derive(Clone, Copy, Debug, PartialEq, Eq, Structural)]
pub enum NamespaceSerialization {
    /// Namespaces are not serialized.
    Off,
    /// All known namespaces are serialized at the root element.
    Global,
    /// The namespaces are collected from the serialized values.
    Dynamic,
}

/// Version of `serde-xml-rs` the generated code is rendered for.
#[derive(Clone, Copy, Debug, PartialEq, Eq, Structural)]
pub enum SerdeXmlRsVersion {
    /// Versions before `0.8`.
    Version07AndBelow,
    /// Version `0.8` and newer.
    Version08AndAbove,
}

/// A step of the code renderer.
#[derive(Debug)]
pub enum RenderStep {
    /// Renders the pure types.
    Types,
    /// Renders the types with `serde-xml-rs` support.
    TypesSerdeXmlRs { version: SerdeXmlRsVersion },
    /// Renders the types with `serde` support for `quick_xml`.
    TypesSerdeQuickXml,
    /// Renders the default values of the types.
    Defaults,
    /// Renders constants for the namespace prefixes.
    PrefixConstants,
    /// Renders constants for the namespaces.
    NamespaceConstants,
    /// Renders the `WithNamespace` trait for the types.
    WithNamespaceTrait,
    /// Renders constants for the variants of enumerations.
    EnumConstants,
    /// Renders the `quick_xml` serializers.
    QuickXmlSerialize {
        namespaces: NamespaceSerialization,
        default_namespace: Option<Namespace>,
    },
    /// Renders the `quick_xml` deserializers.
    QuickXmlDeserialize { boxed_deserializer: bool },
    /// Renders the code that collects the namespaces of serialized values.
    QuickXmlCollectNamespaces,
}

/// The kind of a render step: two steps of the same kind are mutually exclusive.
#[derive(Clone, Copy, Debug, PartialEq, Eq, Structural)]
pub enum RenderStepKind {
    /// All steps that render the types themselves.
    Types,
    Defaults,
    PrefixConstants,
    NamespaceConstants,
    WithNamespaceTrait,
    EnumConstants,
    QuickXmlSerialize,
    QuickXmlDeserialize,
    QuickXmlCollectNamespaces,
}

/// The kind of the render step `s`.
pub open spec fn step_kind(s: RenderStep) -> RenderStepKind {
    match s {
        RenderStep::Types => RenderStepKind::Types,
        RenderStep::TypesSerdeXmlRs { .. } => RenderStepKind::Types,
        RenderStep::TypesSerdeQuickXml => RenderStepKind::Types,
        RenderStep::Defaults => RenderStepKind::Defaults,
        RenderStep::PrefixConstants => RenderStepKind::PrefixConstants,
        RenderStep::NamespaceConstants => RenderStepKind::NamespaceConstants,
        RenderStep::WithNamespaceTrait => RenderStepKind::WithNamespaceTrait,
        RenderStep::EnumConstants => RenderStepKind::EnumConstants,
        RenderStep::QuickXmlSerialize { .. } => RenderStepKind::QuickXmlSerialize,
        RenderStep::QuickXmlDeserialize { .. } => RenderStepKind::QuickXmlDeserialize,
        RenderStep::QuickXmlCollectNamespaces => RenderStepKind::QuickXmlCollectNamespaces,
    }
}

impl RenderStep {
    /// Returns the kind of this step.
    pub fn kind(&self) -> (r: RenderStepKind)
        ensures
            r == step_kind(*self),
    {
        match self {
            RenderStep::Types => RenderStepKind::Types,
            RenderStep::TypesSerdeXmlRs { .. } => RenderStepKind::Types,
            RenderStep::TypesSerdeQuickXml => RenderStepKind::Types,
            RenderStep::Defaults => RenderStepKind::Defaults,
            RenderStep::PrefixConstants => RenderStepKind::PrefixConstants,
            RenderStep::NamespaceConstants => RenderStepKind::NamespaceConstants,
            RenderStep::WithNamespaceTrait => RenderStepKind::WithNamespaceTrait,
            RenderStep::EnumConstants => RenderStepKind::EnumConstants,
            RenderStep::QuickXmlSerialize { .. } => RenderStepKind::QuickXmlSerialize,
            RenderStep::QuickXmlDeserialize { .. } => RenderStepKind::QuickXmlDeserialize,
            RenderStep::QuickXmlCollectNamespaces => RenderStepKind::QuickXmlCollectNamespaces,
        }
    }

    /// Returns `true` if this step and `other` can not be used together: they are of the
    /// same kind (all steps that render the types are of one kind).
    pub fn is_mutual_exclusive_to(&self, other: &RenderStep) -> (r: bool)
        ensures
            r == (step_kind(*self) == step_kind(*other)),
    {
        self.kind() == other.kind()
    }
}

/// Adds the step `s` to `steps`: the first step of the same kind is replaced by `s`, all
/// other steps of that kind are removed, and if there is no such step, `s` is appended.
/// `placed` is `true` once `s` has been placed.
pub open spec fn place_step(steps: Seq<RenderStep>, s: RenderStep, placed: bool) -> Seq<RenderStep>
    decreases steps.len(),
{
    if steps.len() == 0 {
        if placed {
            seq![]
        } else {
            seq![s]
        }
    } else if step_kind(steps[0]) == step_kind(s) {
        if placed {
            place_step(steps.drop_first(), s, true)
        } else {
            seq![s] + place_step(steps.drop_first(), s, true)
        }
    } else {
        seq![steps[0]] + place_step(steps.drop_first(), s, placed)
    }
}

/// The steps after adding the step `s`.
pub open spec fn with_step(steps: Seq<RenderStep>, s: RenderStep) -> Seq<RenderStep> {
    place_step(steps, s, false)
}

/// The steps after adding each step of `list` in turn.
pub open spec fn with_steps(steps: Seq<RenderStep>, list: Seq<RenderStep>) -> Seq<RenderStep>
    decreases list.len(),
{
    if list.len() == 0 {
        steps
    } else {
        with_steps(with_step(steps, list[0]), list.drop_first())
    }
}

/// Adds `step` to `steps` (see [`with_step`]).
pub fn add_render_step(steps: Vec<RenderStep>, step: RenderStep) -> (r: Vec<RenderStep>)
    ensures
        r@ == with_step(steps@, step),
{
    let ghost orig = steps@;
    let ghost s = step;
    let kind = step.kind();
    let mut rest = steps;
    let mut out: Vec<RenderStep> = Vec::new();
    let mut pending: Option<RenderStep> = Some(step);
    assert(orig.skip(0) =~= orig);
    assert(out@ + place_step(orig, s, false) =~= place_step(orig, s, false));
    while rest.len() > 0
        invariant
            rest@ == orig.skip(orig.len() - rest@.len()),
            rest@.len() <= orig.len(),
            kind == step_kind(s),
            pending is Some ==> pending == Some(s),
            with_step(orig, s) == out@ + place_step(rest@, s, pending is None),
        decreases rest@.len(),
    {
        let ghost before = rest@;
        let x = rest.remove(0);
        assert(rest@ =~= before.drop_first());
        assert(rest@ =~= orig.skip(orig.len() - rest@.len()));
        if x.kind() == kind {
            if pending.is_some() {
                let p = pending.take();
                match p {
                    Some(p) => {
                        out.push(p);
                    },
                    None => {},
                }
                assert(out@ + place_step(rest@, s, true) =~= (out@.drop_last() + seq![s])
                    + place_step(rest@, s, true));
            }
        } else {
            let ghost prev = out@;
            out.push(x);
            assert(out@ + place_step(rest@, s, pending is None) =~= prev + (seq![before[0]]
                + place_step(rest@, s, pending is None)));
        }
    }
    match pending {
        Some(p) => {
            out.push(p);
        },
        None => {},
    }
    assert(out@ =~= with_step(orig, s));
    out
}

/// Configuration of the code renderer.
#[derive(Debug)]
pub struct RendererConfig {
    /// Flags that control the renderer.
    pub flags: RendererFlags,
    /// The steps the renderer executes.
    pub steps: Vec<RenderStep>,
    /// The traits the generated types derive (`None` uses the defaults).
    pub derive: Option<Vec<String>>,
}

/// After adding a step, the step is part of the steps, and it is the only step of its kind.
pub proof fn law_with_step_unique(steps: Seq<RenderStep>, s: RenderStep)
    ensures
        with_step(steps, s).contains(s),
        forall|i: int|
            0 <= i < with_step(steps, s).len() && step_kind(#[trigger] with_step(steps, s)[i])
                == step_kind(s) ==> with_step(steps, s)[i] == s,
        forall|i: int, j: int|
            0 <= i < with_step(steps, s).len() && 0 <= j < with_step(steps, s).len() && step_kind(
                #[trigger] with_step(steps, s)[i],
            ) == step_kind(s) && step_kind(#[trigger] with_step(steps, s)[j]) == step_kind(s)
                ==> i == j,
{
    lemma_place_step_shape(steps, s, false);
}

/// Shape of [`place_step`]: the steps of the kind of `s` are exactly one `s` (none if it
/// was placed already).
proof fn lemma_place_step_shape(steps: Seq<RenderStep>, s: RenderStep, placed: bool)
    ensures
        !placed ==> place_step(steps, s, placed).contains(s),
        forall|i: int|
            0 <= i < place_step(steps, s, placed).len() && step_kind(
                #[trigger] place_step(steps, s, placed)[i],
            ) == step_kind(s) ==> !placed && place_step(steps, s, placed)[i] == s,
        forall|i: int, j: int|
            0 <= i < place_step(steps, s, placed).len() && 0 <= j < place_step(
                steps,
                s,
                placed,
            ).len() && step_kind(#[trigger] place_step(steps, s, placed)[i]) == step_kind(s)
                && step_kind(#[trigger] place_step(steps, s, placed)[j]) == step_kind(s) ==> i
                == j,
    decreases steps.len(),
{
    let r = place_step(steps, s, placed);
    if steps.len() == 0 {
        if !placed {
            assert(r[0] == s);
        }
    } else if step_kind(steps[0]) == step_kind(s) {
        lemma_place_step_shape(steps.drop_first(), s, true);
        if !placed {
            let t = place_step(steps.drop_first(), s, true);
            assert(r =~= seq![s] + t);
            assert(r[0] == s);
            assert forall|i: int| 0 < i < r.len() implies step_kind(#[trigger] r[i]) != step_kind(
                s,
            ) by {
                assert(r[i] == t[i - 1]);
            }
        }
    } else {
        lemma_place_step_shape(steps.drop_first(), s, placed);
        let t = place_step(steps.drop_first(), s, placed);
        assert(r =~= seq![steps[0]] + t);
        assert forall|i: int|
            0 < i < r.len() implies #[trigger] r[i] == t[i - 1] by {}
        if !placed {
            let k = choose|k: int| 0 <= k < t.len() && t[k] == s;
            assert(r[k + 1] == s);
        }
        assert forall|i: int, j: int|
            0 <= i < r.len() && 0 <= j < r.len() && step_kind(#[trigger] r[i]) == step_kind(s)
                && step_kind(#[trigger] r[j]) == step_kind(s) implies i == j by {
            assert(i > 0 && j > 0);
            assert(r[i] == t[i - 1] && r[j] == t[j - 1]);
        }
    }
}

/// Adding the same step twice has the same effect as adding it once.
pub proof fn law_with_step_idempotent(steps: Seq<RenderStep>, s: RenderStep)
    ensures
        with_step(with_step(steps, s), s) == with_step(steps, s),
{
    lemma_place_placed(steps, s);
}

/// Placing `s` into a list where it was placed already changes nothing.
proof fn lemma_place_placed(steps: Seq<RenderStep>, s: RenderStep)
    ensures
        place_step(place_step(steps, s, false), s, false) == place_step(steps, s, false),
        place_step(place_step(steps, s, true), s, true) == place_step(steps, s, true),
        place_step(place_step(steps, s, false), s, true) == place_step(steps, s, true),
    decreases steps.len(),
{
    if steps.len() == 0 {
        let one = seq![s];
        assert(one.drop_first() =~= Seq::<RenderStep>::empty());
        assert(one[0] == s);
        assert(place_step(Seq::<RenderStep>::empty(), s, true) =~= Seq::<RenderStep>::empty());
        assert(place_step(one, s, false) =~= seq![s] + Seq::<RenderStep>::empty());
        assert(place_step(one, s, false) =~= seq![s]);
        assert(place_step(one, s, true) =~= Seq::<RenderStep>::empty());
    } else {
        lemma_place_placed(steps.drop_first(), s);
        let rest = steps.drop_first();
        if step_kind(steps[0]) == step_kind(s) {
            let a = place_step(rest, s, true);
            assert((seq![s] + a).drop_first() =~= a);
            assert((seq![s] + a)[0] == s);
        } else {
            let a = place_step(rest, s, false);
            let b = place_step(rest, s, true);
            assert((seq![steps[0]] + a).drop_first() =~= a);
            assert((seq![steps[0]] + a)[0] == steps[0]);
            assert((seq![steps[0]] + b).drop_first() =~= b);
            assert((seq![steps[0]] + b)[0] == steps[0]);
        }
    }
}

/// The steps of `t` of the kind `k`, in their order.
pub open spec fn of_kind(t: Seq<RenderStep>, k: RenderStepKind) -> Seq<RenderStep>
    decreases t.len(),
{
    if t.len() == 0 {
        Seq::empty()
    } else {
        (if step_kind(t[0]) == k {
            seq![t[0]]
        } else {
            Seq::empty()
        }) + of_kind(t.drop_first(), k)
    }
}

/// The steps of `list` have pairwise different kinds.
pub open spec fn distinct_kinds(list: Seq<RenderStep>) -> bool {
    forall|i: int, j: int|
        0 <= i < list.len() && 0 <= j < list.len() && i != j ==> step_kind(#[trigger] list[i])
            != step_kind(#[trigger] list[j])
}

/// Placing `s` into steps that hold none of its kind, once it was placed, changes nothing;
/// placing it where it is the only step of its kind changes nothing either.
proof fn lemma_place_into_placed(t: Seq<RenderStep>, s: RenderStep)
    ensures
        of_kind(t, step_kind(s)) == Seq::<RenderStep>::empty() ==> place_step(t, s, true) == t,
        of_kind(t, step_kind(s)) == seq![s] ==> place_step(t, s, false) == t,
    decreases t.len(),
{
    if t.len() > 0 {
        lemma_place_into_placed(t.drop_first(), s);
        let rest = t.drop_first();
        let head: Seq<RenderStep> = if step_kind(t[0]) == step_kind(s) {
            seq![t[0]]
        } else {
            Seq::empty()
        };
        assert(of_kind(t, step_kind(s)) == head + of_kind(rest, step_kind(s)));
        if step_kind(t[0]) == step_kind(s) {
            assert(of_kind(t, step_kind(s)).len() >= 1);
            if of_kind(t, step_kind(s)) == seq![s] {
                assert(of_kind(t, step_kind(s))[0] == t[0]);
                assert(of_kind(rest, step_kind(s)) =~= Seq::<RenderStep>::empty());
                assert(t =~= seq![s] + rest);
            }
        } else {
            assert(head + of_kind(rest, step_kind(s)) =~= of_kind(rest, step_kind(s)));
            assert(t =~= seq![t[0]] + rest);
        }
    } else {
        if of_kind(t, step_kind(s)) == seq![s] {
            assert(of_kind(t, step_kind(s)).len() == 0);
        }
        assert(t =~= Seq::<RenderStep>::empty());
    }
}

/// Placing a step of another kind keeps the steps of the kind `k`; placing `s` leaves `s`
/// as the only step of its kind.
proof fn lemma_of_kind_placed(t: Seq<RenderStep>, s: RenderStep, placed: bool, k: RenderStepKind)
    ensures
        k != step_kind(s) ==> of_kind(place_step(t, s, placed), k) == of_kind(t, k),
        k == step_kind(s) ==> of_kind(place_step(t, s, placed), k) == if placed {
            Seq::<RenderStep>::empty()
        } else {
            seq![s]
        },
    decreases t.len(),
{
    let r = place_step(t, s, placed);
    if t.len() == 0 {
        if !placed {
            let one: Seq<RenderStep> = seq![s];
            assert(one.len() == 1);
            assert(one[0] == s);
            assert(one.drop_first() =~= Seq::<RenderStep>::empty());
            assert(of_kind(one.drop_first(), k) == Seq::<RenderStep>::empty());
            let head: Seq<RenderStep> = if step_kind(s) == k {
                seq![s]
            } else {
                Seq::empty()
            };
            assert(of_kind(one, k) == head + of_kind(one.drop_first(), k));
            assert(head + Seq::<RenderStep>::empty() =~= head);
        }
    } else {
        let rest = t.drop_first();
        if step_kind(t[0]) == step_kind(s) {
            lemma_of_kind_placed(rest, s, true, k);
            if !placed {
                let a = place_step(rest, s, true);
                assert((seq![s] + a).drop_first() =~= a);
                assert((seq![s] + a)[0] == s);
                assert(of_kind(seq![s] + a, k) == (if step_kind(s) == k {
                    seq![s]
                } else {
                    Seq::empty()
                }) + of_kind(a, k));
            }
            if k == step_kind(s) {
                assert(of_kind(r, k) =~= (if placed { Seq::<RenderStep>::empty() } else { seq![s] }));
            } else {
                assert(of_kind(t, k) =~= of_kind(rest, k));
                assert(of_kind(r, k) =~= of_kind(rest, k));
            }
        } else {
            lemma_of_kind_placed(rest, s, placed, k);
            let a = place_step(rest, s, placed);
            assert((seq![t[0]] + a).drop_first() =~= a);
            assert((seq![t[0]] + a)[0] == t[0]);
            assert(of_kind(r, k) == (if step_kind(t[0]) == k {
                seq![t[0]]
            } else {
                Seq::empty()
            }) + of_kind(a, k));
            if k == step_kind(s) {
                assert(of_kind(r, k) =~= of_kind(a, k));
            }
        }
    }
}

/// Adding steps of other kinds keeps the steps of the kind `k`.
pub proof fn lemma_of_kind_other_steps(t: Seq<RenderStep>, list: Seq<RenderStep>, k: RenderStepKind)
    requires
        forall|i: int| 0 <= i < list.len() ==> step_kind(#[trigger] list[i]) != k,
    ensures
        of_kind(with_steps(t, list), k) == of_kind(t, k),
    decreases list.len(),
{
    if list.len() > 0 {
        lemma_of_kind_placed(t, list[0], false, k);
        assert forall|i: int| 0 <= i < list.drop_first().len() implies step_kind(
            #[trigger] list.drop_first()[i],
        ) != k by {
            assert(list.drop_first()[i] == list[i + 1]);
        }
        lemma_of_kind_other_steps(with_step(t, list[0]), list.drop_first(), k);
    }
}

/// After adding steps of pairwise different kinds, each of them is the only step of its kind.
proof fn lemma_with_steps_hold(t: Seq<RenderStep>, list: Seq<RenderStep>)
    requires
        distinct_kinds(list),
    ensures
        forall|i: int|
            0 <= i < list.len() ==> of_kind(with_steps(t, list), step_kind(#[trigger] list[i]))
                == seq![list[i]],
    decreases list.len(),
{
    if list.len() > 0 {
        let rest = list.drop_first();
        let t1 = with_step(t, list[0]);
        assert forall|i: int, j: int|
            0 <= i < rest.len() && 0 <= j < rest.len() && i != j implies step_kind(
            #[trigger] rest[i],
        ) != step_kind(#[trigger] rest[j]) by {
            assert(rest[i] == list[i + 1] && rest[j] == list[j + 1]);
        }
        lemma_with_steps_hold(t1, rest);
        lemma_of_kind_placed(t, list[0], false, step_kind(list[0]));
        assert forall|i: int| 0 <= i < rest.len() implies step_kind(#[trigger] rest[i])
            != step_kind(list[0]) by {
            assert(rest[i] == list[i + 1]);
        }
        lemma_of_kind_other_steps(t1, rest, step_kind(list[0]));
        assert forall|i: int| 0 <= i < list.len() implies of_kind(
            with_steps(t, list),
            step_kind(#[trigger] list[i]),
        ) == seq![list[i]] by {
            if i > 0 {
                assert(list[i] == rest[i - 1]);
            }
        }
    }
}

/// Adding steps that are each the only step of their kind already changes nothing.
proof fn lemma_with_steps_held(t: Seq<RenderStep>, list: Seq<RenderStep>)
    requires
        forall|i: int| 0 <= i < list.len() ==> of_kind(t, step_kind(#[trigger] list[i])) == seq![
            list[i],
        ],
    ensures
        with_steps(t, list) == t,
    decreases list.len(),
{
    if list.len() > 0 {
        assert(of_kind(t, step_kind(list[0])) == seq![list[0]]);
        lemma_place_into_placed(t, list[0]);
        assert forall|i: int| 0 <= i < list.drop_first().len() implies of_kind(
            t,
            step_kind(#[trigger] list.drop_first()[i]),
        ) == seq![list.drop_first()[i]] by {
            assert(list.drop_first()[i] == list[i + 1]);
        }
        lemma_with_steps_held(t, list.drop_first());
    }
}

/// Adding steps of pairwise different kinds twice has the same effect as adding them once,
/// and afterwards each of them is the only step of its kind.
pub proof fn law_with_steps_idempotent(steps: Seq<RenderStep>, list: Seq<RenderStep>)
    requires
        distinct_kinds(list),
    ensures
        with_steps(with_steps(steps, list), list) == with_steps(steps, list),
        forall|i: int|
            0 <= i < list.len() ==> of_kind(with_steps(steps, list), step_kind(#[trigger] list[i]))
                == seq![list[i]],
{
    lemma_with_steps_hold(steps, list);
    lemma_with_steps_held(with_steps(steps, list), list);
}

} // verus!
