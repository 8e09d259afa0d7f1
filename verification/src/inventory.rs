//! Reassembly of the inventory, which the map server sends as a start
//! packet, any number of item-list packets and an end packet.

use vstd::prelude::*;

use crate::items::{equippable_item, regular_item, InventoryItem, NoMetadata};
use crate::wire::{EquippableItemInformation, RegularItemInformation};

verus! {

/// One packet of an inventory sequence, reduced to the items it brings.
pub enum ReassemblyStep<T> {
    Start,
    Items(Seq<T>),
    End,
}

/// The accumulator after one step, and the inventory that the step
/// completes, if it completes one.
///
/// A start always leaves an empty accumulator, whatever was collected before.
/// Items and an end that arrive outside a sequence change nothing and
/// complete nothing.
pub open spec fn reassembly_step<T>(state: Option<Seq<T>>, step: ReassemblyStep<T>) -> (Option<Seq<T>>, Option<Seq<T>>) {
    match step {
        ReassemblyStep::Start => (Some(Seq::empty()), None),
        ReassemblyStep::Items(items) => match state {
            Some(collected) => (Some(collected + items), None),
            None => (None, None),
        },
        ReassemblyStep::End => (None, state),
    }
}

/// The accumulator after a run of steps, and the inventories completed on
/// the way, in order.
pub open spec fn reassembly_run<T>(state: Option<Seq<T>>, steps: Seq<ReassemblyStep<T>>) -> (
    Option<Seq<T>>,
    Seq<Seq<T>>,
)
    decreases steps.len(),
{
    if steps.len() == 0 {
        (state, Seq::empty())
    } else {
        let (before, completed) = reassembly_run(state, steps.drop_last());
        let (after, inventory) = reassembly_step(before, steps.last());
        (
            after,
            match inventory {
                Some(items) => completed.push(items),
                None => completed,
            },
        )
    }
}

/// The item-list packets of a sequence as steps.
pub open spec fn item_steps<T>(lists: Seq<Seq<T>>) -> Seq<ReassemblyStep<T>> {
    lists.map_values(|items: Seq<T>| ReassemblyStep::Items(items))
}

/// The sum of the lengths of the lists.
pub open spec fn total_length<T>(lists: Seq<Seq<T>>) -> nat
    decreases lists.len(),
{
    if lists.len() == 0 {
        0
    } else {
        total_length(lists.drop_last()) + lists.last().len()
    }
}

/// After a start and any number of item lists the accumulator holds the
/// lists joined in arrival order, and nothing has been completed.
pub proof fn lemma_collects_in_arrival_order<T>(state: Option<Seq<T>>, lists: Seq<Seq<T>>)
    ensures
        reassembly_run(state, seq![ReassemblyStep::Start] + item_steps(lists)) == (
            Some(lists.flatten()),
            Seq::<Seq<T>>::empty(),
        ),
        lists.flatten().len() == total_length(lists),
    decreases lists.len(),
{
    let steps = seq![ReassemblyStep::<T>::Start] + item_steps(lists);
    if lists.len() == 0 {
        assert(steps.drop_last() =~= Seq::<ReassemblyStep<T>>::empty());
        assert(steps.last() == ReassemblyStep::<T>::Start);
        assert(reassembly_run(state, steps.drop_last()) == (state, Seq::<Seq<T>>::empty()));
        assert(lists.flatten() =~= Seq::<T>::empty());
    } else {
        let earlier = lists.drop_last();
        lemma_collects_in_arrival_order(state, earlier);
        assert(steps.drop_last() =~= seq![ReassemblyStep::<T>::Start] + item_steps(earlier));
        assert(steps.last() == ReassemblyStep::Items(lists.last()));
        assert(lists =~= earlier.push(lists.last()));
        earlier.lemma_flatten_push(lists.last());
        assert(lists.flatten() =~= earlier.flatten() + lists.last());
    }
}

/// A start, item lists of any lengths and an end complete exactly one
/// inventory: the lists joined in arrival order, as long as their lengths
/// together. The accumulator is gone afterwards. What was collected before the
/// start does not show.
pub proof fn lemma_sequence_yields_one_inventory<T>(state: Option<Seq<T>>, lists: Seq<Seq<T>>)
    ensures
        reassembly_run(
            state,
            (seq![ReassemblyStep::Start] + item_steps(lists)).push(ReassemblyStep::End),
        ) == (None::<Seq<T>>, seq![lists.flatten()]),
        lists.flatten().len() == total_length(lists),
{
    let collecting = seq![ReassemblyStep::<T>::Start] + item_steps(lists);
    let steps = collecting.push(ReassemblyStep::End);
    lemma_collects_in_arrival_order(state, lists);
    assert(steps.drop_last() =~= collecting);
    assert(steps.last() == ReassemblyStep::<T>::End);
    assert(Seq::<Seq<T>>::empty().push(lists.flatten()) =~= seq![lists.flatten()]);
}

/// Item lists that arrive without a start complete nothing and leave no
/// accumulator behind.
pub proof fn lemma_items_without_start_are_dropped<T>(lists: Seq<Seq<T>>)
    ensures
        reassembly_run(None, item_steps(lists)) == (None::<Seq<T>>, Seq::<Seq<T>>::empty()),
    decreases lists.len(),
{
    let steps = item_steps(lists);
    if lists.len() > 0 {
        lemma_items_without_start_are_dropped(lists.drop_last());
        assert(steps.drop_last() =~= item_steps(lists.drop_last()));
        assert(steps.last() == ReassemblyStep::Items(lists.last()));
    }
}

/// The items of an inventory sequence that has started and not yet ended.
///
/// The accumulator exists exactly while the session is inside such a
/// sequence.
#[derive(Debug)]
pub struct InventoryAccumulator {
    items: Option<Vec<InventoryItem<NoMetadata>>>,
}

impl View for InventoryAccumulator {
    type V = Option<Seq<InventoryItem<NoMetadata>>>;

    closed spec fn view(&self) -> Option<Seq<InventoryItem<NoMetadata>>> {
        match self.items {
            Some(items) => Some(items@),
            None => None,
        }
    }
}

impl InventoryAccumulator {
    /// An accumulator outside any sequence.
    pub fn new() -> (accumulator: Self)
        ensures
            accumulator@ is None,
    {
        InventoryAccumulator { items: None }
    }

    /// Whether a sequence has started and not yet ended.
    pub fn is_active(&self) -> (active: bool)
        ensures
            active == self@.is_some(),
    {
        self.items.is_some()
    }

    /// The number of items collected so far, if a sequence is under way.
    pub fn collected(&self) -> (count: Option<usize>)
        ensures
            count == match self@ {
                Some(items) => Some(items.len() as usize),
                None => None,
            },
    {
        match &self.items {
            Some(items) => Some(items.len()),
            None => None,
        }
    }

    /// Leaves any sequence under way and forgets what it collected.
    pub fn reset(&mut self)
        ensures
            final(self)@ is None,
    {
        self.items = None;
    }

    /// Handles a start packet. Returns `false` if a sequence was already
    /// under way: the peers are out of step, and what was collected is
    /// dropped.
    pub fn start(&mut self) -> (in_step: bool)
        ensures
            final(self)@ == reassembly_step(old(self)@, ReassemblyStep::Start).0,
            in_step == old(self)@.is_none(),
    {
        let in_step = self.items.is_none();
        self.items = Some(Vec::new());
        in_step
    }

    /// Handles a list of stacking items. Returns `false`, and changes
    /// nothing, if no sequence is under way.
    pub fn extend_regular(&mut self, item_information: Vec<RegularItemInformation>) -> (in_step: bool)
        ensures
            final(self)@ == reassembly_step(
                old(self)@,
                ReassemblyStep::Items(item_information@.map_values(|i: RegularItemInformation| regular_item(i))),
            ).0,
            in_step == old(self)@.is_some(),
    {
        let ghost converted = item_information@.map_values(|i: RegularItemInformation| regular_item(i));
        match self.items.take() {
            Some(mut items) => {
                let ghost collected = items@;
                let mut position: usize = 0;
                while position < item_information.len()
                    invariant
                        position <= item_information.len(),
                        converted == item_information@.map_values(|i: RegularItemInformation| regular_item(i)),
                        items@ == collected + converted.take(position as int),
                    decreases item_information.len() - position,
                {
                    items.push(InventoryItem::from_regular(item_information[position]));
                    proof {
                        assert(converted.take(position + 1) =~= converted.take(position as int).push(
                            converted[position as int],
                        ));
                        assert(items@ =~= collected + converted.take(position + 1));
                    }
                    position += 1;
                }
                proof {
                    assert(converted.take(position as int) =~= converted);
                }
                self.items = Some(items);
                true
            },
            None => false,
        }
    }

    /// Handles a list of wearable items. Returns `false`, and changes
    /// nothing, if no sequence is under way.
    pub fn extend_equippable(&mut self, item_information: Vec<EquippableItemInformation>) -> (in_step: bool)
        ensures
            final(self)@ == reassembly_step(
                old(self)@,
                ReassemblyStep::Items(
                    item_information@.map_values(|i: EquippableItemInformation| equippable_item(i)),
                ),
            ).0,
            in_step == old(self)@.is_some(),
    {
        let ghost converted = item_information@.map_values(|i: EquippableItemInformation| equippable_item(i));
        match self.items.take() {
            Some(mut items) => {
                let ghost collected = items@;
                let mut position: usize = 0;
                while position < item_information.len()
                    invariant
                        position <= item_information.len(),
                        converted == item_information@.map_values(|i: EquippableItemInformation| equippable_item(i)),
                        items@ == collected + converted.take(position as int),
                    decreases item_information.len() - position,
                {
                    items.push(InventoryItem::from_equippable(item_information[position]));
                    proof {
                        assert(converted.take(position + 1) =~= converted.take(position as int).push(
                            converted[position as int],
                        ));
                        assert(items@ =~= collected + converted.take(position + 1));
                    }
                    position += 1;
                }
                proof {
                    assert(converted.take(position as int) =~= converted);
                }
                self.items = Some(items);
                true
            },
            None => false,
        }
    }

    /// Handles an end packet: hands out what the sequence collected, or
    /// nothing if no sequence was under way.
    pub fn finish(&mut self) -> (inventory: Option<Vec<InventoryItem<NoMetadata>>>)
        ensures
            final(self)@ == reassembly_step(old(self)@, ReassemblyStep::End).0,
            match inventory {
                Some(items) => Some(items@),
                None => None,
            } == reassembly_step(old(self)@, ReassemblyStep::End).1,
    {
        self.items.take()
    }
}

} // verus!
