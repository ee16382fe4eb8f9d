//! The random choice of a session's images among the paths on offer.

use rand::rngs::StdRng;
use rand::seq::SliceRandom;
use vstd::prelude::*;
use vstd::seq_lib::lemma_multiset_commutative;

verus! {

/// How many images a selection holds: as many as requested, or all that
/// are offered when those are fewer.
pub open spec fn selection_size(requested: nat, offered: nat) -> nat {
    if requested <= offered {
        requested
    } else {
        offered
    }
}

/// `order` holds the paths of `candidates`, each as often as they do, in
/// some order.
pub open spec fn is_reordering(order: Seq<Seq<char>>, candidates: Seq<Seq<char>>) -> bool {
    order.to_multiset() == candidates.to_multiset()
}

/// `selected` is a possible choice of `requested` images among
/// `candidates`: the beginning, of the size of a selection, of some
/// reordering of the candidates.
pub open spec fn is_selection(
    selected: Seq<Seq<char>>,
    candidates: Seq<Seq<char>>,
    requested: nat,
) -> bool {
    exists|order: Seq<Seq<char>>| #[trigger]
        is_reordering(order, candidates) && selected == order.take(
            selection_size(requested, candidates.len()) as int,
        )
}

/// The random number generator `rand::rngs::StdRng`, from which the order
/// of the images is drawn. Nothing is known of its state.
#[verifier::external_type_specification]
#[verifier::external_body]
pub struct ExStdRng(rand::rngs::StdRng);

/// Brings the paths into a random order with `rand`'s
/// `SliceRandom::shuffle`, drawing from `rng`. The shuffle only ever swaps
/// two elements of the slice, so whatever the generator yields, the result
/// is a reordering of what was handed in. The order is the generator's and
/// nothing is claimed about it, nor about the state the generator is left
/// in.
#[verifier::external_body]
fn shuffle_images(images: Vec<String>, rng: &mut StdRng) -> (shuffled: Vec<String>)
    ensures
        is_reordering(shuffled.deep_view(), images.deep_view()),
{
    let mut images = images;
    images.shuffle(rng);
    images
}

/// Keeps the first `number_of_images_to_select` paths, or all of them when
/// there are fewer.
pub fn first_images(images: Vec<String>, number_of_images_to_select: usize) -> (selected: Vec<
    String,
>)
    ensures
        selected.deep_view() == images.deep_view().take(
            selection_size(number_of_images_to_select as nat, images.len() as nat) as int,
        ),
{
    let mut selected = images;
    selected.truncate(number_of_images_to_select);
    assert(selected.deep_view() =~= images.deep_view().take(
        selection_size(number_of_images_to_select as nat, images.len() as nat) as int,
    ));
    selected
}

/// Selects at random `number_of_images_to_select` of the given paths, or
/// all of them when there are fewer, in a random order drawn from `rng`.
pub fn select_images(
    images: Vec<String>,
    number_of_images_to_select: usize,
    rng: &mut StdRng,
) -> (selected: Vec<String>)
    ensures
        is_selection(
            selected.deep_view(),
            images.deep_view(),
            number_of_images_to_select as nat,
        ),
        selected.len() == selection_size(
            number_of_images_to_select as nat,
            images.len() as nat,
        ),
{
    let shuffled = shuffle_images(images, rng);
    proof {
        lemma_reordering_keeps_len(shuffled.deep_view(), images.deep_view());
        assert(shuffled.deep_view().len() == shuffled.len());
        assert(images.deep_view().len() == images.len());
    }
    let selected = first_images(shuffled, number_of_images_to_select);
    assert(selected.deep_view().len() == selected.len());
    selected
}

/// A reordering is as long as what it reorders.
proof fn lemma_reordering_keeps_len(order: Seq<Seq<char>>, candidates: Seq<Seq<char>>)
    requires
        is_reordering(order, candidates),
    ensures
        order.len() == candidates.len(),
{
    order.to_multiset_ensures();
    candidates.to_multiset_ensures();
}

/// A selection has the size of a selection; every selected path is one of
/// the candidates, none taken more often than it is offered; and a
/// selection among candidates that are all different holds no path twice.
pub proof fn lemma_selection_drawn_and_distinct(
    selected: Seq<Seq<char>>,
    candidates: Seq<Seq<char>>,
    requested: nat,
)
    requires
        is_selection(selected, candidates, requested),
    ensures
        selected.len() == selection_size(requested, candidates.len()),
        selected.to_multiset().subset_of(candidates.to_multiset()),
        forall|i: int| 0 <= i < selected.len() ==> candidates.contains(#[trigger] selected[i]),
        candidates.no_duplicates() ==> selected.no_duplicates(),
{
    let size = selection_size(requested, candidates.len());
    let order = choose|order: Seq<Seq<char>>| #[trigger]
        is_reordering(order, candidates) && selected == order.take(size as int);
    lemma_reordering_keeps_len(order, candidates);
    assert(selected + order.skip(size as int) =~= order);
    lemma_multiset_commutative(selected, order.skip(size as int));
    let chosen = selected.to_multiset();
    let offered = candidates.to_multiset();
    assert(chosen.subset_of(offered));
    selected.to_multiset_ensures();
    candidates.to_multiset_ensures();
    assert forall|i: int| 0 <= i < selected.len() implies candidates.contains(
        #[trigger] selected[i],
    ) by {
        assert(selected.contains(selected[i]));
        assert(chosen.count(selected[i]) <= offered.count(selected[i]));
    }
    if candidates.no_duplicates() {
        candidates.lemma_multiset_has_no_duplicates();
        assert forall|path: Seq<char>| chosen.contains(path) implies chosen.count(path) == 1 by {
            assert(chosen.count(path) <= offered.count(path));
            assert(offered.contains(path));
        }
        selected.lemma_multiset_has_no_duplicates_conv();
    }
}

} // verus!
