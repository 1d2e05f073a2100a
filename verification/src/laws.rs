//! Laws of merging, proved of the model that `HostParams::merge` is
//! specified by. Each holds of every layer, whatever it sets.
//!
//! Throughout, `base` is the layer that is merged into and `top` the layer
//! that is laid over it.
use crate::layer::{merge_all, overlay, Field, ParameterSet};
use vstd::prelude::*;

verus! {

/// Merging works on each setting by itself: what the merged layer says about
/// a setting is the overlay of what the two layers say about that setting.
pub proof fn lemma_merge_get(base: ParameterSet, top: ParameterSet, field: Field)
    ensures
        base.merge(top).get(field) == overlay(base.get(field), top.get(field)),
{
}

/// A layer is what it says about each setting: two layers that agree on
/// every setting are the same layer.
pub proof fn lemma_layer_extensional(a: ParameterSet, b: ParameterSet)
    requires
        forall|field: Field| a.get(field) == b.get(field),
    ensures
        a == b,
{
    assert(a.get(Field::BindAddress) == b.get(Field::BindAddress));
    assert(a.get(Field::BindInterface) == b.get(Field::BindInterface));
    assert(a.get(Field::CaSignatureAlgorithms) == b.get(Field::CaSignatureAlgorithms));
    assert(a.get(Field::CertificateFile) == b.get(Field::CertificateFile));
    assert(a.get(Field::Ciphers) == b.get(Field::Ciphers));
    assert(a.get(Field::Compression) == b.get(Field::Compression));
    assert(a.get(Field::ConnectionAttempts) == b.get(Field::ConnectionAttempts));
    assert(a.get(Field::ConnectTimeout) == b.get(Field::ConnectTimeout));
    assert(a.get(Field::HostName) == b.get(Field::HostName));
    assert(a.get(Field::Mac) == b.get(Field::Mac));
    assert(a.get(Field::PubkeyAcceptedAlgorithms) == b.get(Field::PubkeyAcceptedAlgorithms));
    assert(a.get(Field::PubkeyAuthentication) == b.get(Field::PubkeyAuthentication));
    assert(a.get(Field::RemoteForward) == b.get(Field::RemoteForward));
    assert(a.get(Field::TcpKeepAlive) == b.get(Field::TcpKeepAlive));
}

/// The empty layer is neutral on both sides: laying it over a layer changes
/// nothing, and a layer laid over it gives that layer.
pub proof fn lemma_merge_identity(layer: ParameterSet)
    ensures
        layer.merge(ParameterSet::empty()) == layer,
        ParameterSet::empty().merge(layer) == layer,
{
}

/// A setting that the upper layer gives has the upper layer's value after
/// the merge, whatever the lower layer said about it.
pub proof fn lemma_merge_override(base: ParameterSet, top: ParameterSet, field: Field)
    requires
        top.is_set(field),
    ensures
        base.merge(top).get(field) == top.get(field),
{
}

/// A setting that the upper layer leaves unset is after the merge what it
/// was in the lower layer.
pub proof fn lemma_merge_preserve(base: ParameterSet, top: ParameterSet, field: Field)
    requires
        !top.is_set(field),
    ensures
        base.merge(top).get(field) == base.get(field),
{
}

/// Laying the same layer on a second time changes nothing.
pub proof fn lemma_merge_idempotent(base: ParameterSet, top: ParameterSet)
    ensures
        base.merge(top).merge(top) == base.merge(top),
{
}

/// Settings do not influence each other: two upper layers that differ in
/// one setting at most give merged layers that differ in that setting at
/// most.
pub proof fn lemma_merge_no_cross_talk(
    base: ParameterSet,
    top: ParameterSet,
    changed: ParameterSet,
    field: Field,
)
    requires
        forall|other: Field| other != field ==> top.get(other) == changed.get(other),
    ensures
        forall|other: Field|
            other != field ==> base.merge(top).get(other) == base.merge(changed).get(other),
{
    assert forall|other: Field| other != field implies base.merge(top).get(other) == base.merge(
        changed,
    ).get(other) by {
        assert(top.get(other) == changed.get(other));
    }
}

/// What a merge does to one setting depends on that setting alone: where
/// two lower layers agree on it and two upper layers agree on it, the
/// merged layers agree on it, however much they differ elsewhere.
pub proof fn lemma_merge_field_independent(
    base: ParameterSet,
    top: ParameterSet,
    other_base: ParameterSet,
    other_top: ParameterSet,
    field: Field,
)
    requires
        base.get(field) == other_base.get(field),
        top.get(field) == other_top.get(field),
    ensures
        base.merge(top).get(field) == other_base.merge(other_top).get(field),
{
}

/// No merge unsets anything: a setting that has a value keeps having one,
/// whatever is laid over it.
pub proof fn lemma_merge_keeps_set(base: ParameterSet, top: ParameterSet, field: Field)
    requires
        base.is_set(field),
    ensures
        base.merge(top).is_set(field),
{
}

/// Once a merge has set a setting, no later merge unsets it, and a later
/// merge that is silent on it leaves the value that was set.
pub proof fn lemma_merge_no_reversion(
    base: ParameterSet,
    top: ParameterSet,
    later: ParameterSet,
    field: Field,
)
    requires
        top.is_set(field),
    ensures
        base.merge(top).is_set(field),
        base.merge(top).merge(later).is_set(field),
        !later.is_set(field) ==> base.merge(top).merge(later).get(field) == top.get(field),
{
}

/// Merging is associative: laying `later` over the result of laying `top`
/// over `base` is laying the combined layer `top.merge(later)` over `base`.
pub proof fn lemma_merge_associative(base: ParameterSet, top: ParameterSet, later: ParameterSet)
    ensures
        base.merge(top).merge(later) == base.merge(top.merge(later)),
{
}

/// The order of two layers matters exactly where they contradict each
/// other: the two merges agree on a setting iff at most one of the layers
/// gives it or both give it the same value.
pub proof fn lemma_merge_order_matters(one: ParameterSet, other: ParameterSet, field: Field)
    ensures
        one.merge(other).get(field) == other.merge(one).get(field) <==> (!one.is_set(field)
            || !other.is_set(field) || one.get(field) == other.get(field)),
{
    lemma_merge_get(one, other, field);
    lemma_merge_get(other, one, field);
}

/// However many layers are laid on, the last one that speaks about a
/// setting decides it.
pub proof fn lemma_merge_all_last_word(
    base: ParameterSet,
    layers: Seq<ParameterSet>,
    last: int,
    field: Field,
)
    requires
        0 <= last < layers.len(),
        layers[last].is_set(field),
        forall|later: int| last < later < layers.len() ==> !layers[later].is_set(field),
    ensures
        merge_all(base, layers).get(field) == layers[last].get(field),
    decreases layers.len(),
{
    lemma_merge_get(merge_all(base, layers.drop_last()), layers.last(), field);
    if last < layers.len() - 1 {
        assert(!layers[layers.len() - 1].is_set(field));
        lemma_merge_all_last_word(base, layers.drop_last(), last, field);
    }
}

/// A setting that none of the layers speaks about stays what it was at the
/// bottom.
pub proof fn lemma_merge_all_silent(base: ParameterSet, layers: Seq<ParameterSet>, field: Field)
    requires
        forall|i: int| 0 <= i < layers.len() ==> !layers[i].is_set(field),
    ensures
        merge_all(base, layers).get(field) == base.get(field),
    decreases layers.len(),
{
    if layers.len() > 0 {
        lemma_merge_get(merge_all(base, layers.drop_last()), layers.last(), field);
        assert(!layers[layers.len() - 1].is_set(field));
        lemma_merge_all_silent(base, layers.drop_last(), field);
    }
}

} // verus!
