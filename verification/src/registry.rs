//! The registry that says, for one phase, which packets are handled and
//! which are read and dropped.

use vstd::prelude::*;

verus! {

/// The packets this client knows, by their type.
#[derive(Debug, Clone, Copy, PartialEq, Eq, Hash, Structural)]
pub enum PacketKind {
    LoginServerLoginSuccessPacket,
    LoginFailedPacket,
    LoginFailedPacket2,
    CharacterServerLoginSuccessPacket,
    RequestCharacterListSuccessPacket,
    CharacterListPacket,
    CharacterSlotPagePacket,
    CharacterBanListPacket,
    LoginPincodePacket,
    Packet0b18,
    CharacterSelectionSuccessPacket,
    CharacterSelectionFailedPacket,
    MapServerUnavailablePacket,
    CreateCharacterSuccessPacket,
    CharacterCreationFailedPacket,
    CharacterDeletionSuccessPacket,
    CharacterDeletionFailedPacket,
    SwitchCharacterSlotResponsePacket,
    MapServerPingPacket,
    BroadcastMessagePacket,
    Broadcast2MessagePacket,
    OverheadMessagePacket,
    ServerMessagePacket,
    MessageTablePacket,
    EntityMessagePacket,
    DisplayEmotionPacket,
    EntityMovePacket,
    EntityStopMovePacket,
    PlayerMovePacket,
    ChangeMapPacket,
    ResurrectionPacket,
    EntityAppearedPacket,
    EntityAppeared2Packet,
    MovingEntityAppearedPacket,
    EntityDisappearedPacket,
    UpdateStatPacket,
    UpdateStatPacket1,
    UpdateStatPacket2,
    UpdateStatPacket3,
    UpdateAttackRangePacket,
    NewMailStatusPacket,
    AchievementUpdatePacket,
    AchievementListPacket,
    CriticalWeightUpdatePacket,
    SpriteChangePacket,
    InventoyStartPacket,
    RegularItemListPacket,
    EquippableItemListPacket,
    InventoyEndPacket,
    EquippableSwitchItemListPacket,
    MapTypePacket,
    UpdateSkillTreePacket,
    UpdateHotkeysPacket,
    InitialStatsPacket,
    UpdatePartyInvitationStatePacket,
    UpdateShowEquipPacket,
    UpdateConfigurationPacket,
    NavigateToMonsterPacket,
    MarkMinimapPositionPacket,
    NextButtonPacket,
    CloseButtonPacket,
    DialogMenuPacket,
    DisplaySpecialEffectPacket,
    DisplaySkillCooldownPacket,
    DisplaySkillEffectAndDamagePacket,
    DisplaySkillEffectNoDamagePacket,
    DisplayPlayerHealEffect,
    StatusChangePacket,
    QuestNotificationPacket1,
    HuntingQuestNotificationPacket,
    HuntingQuestUpdateObjectivePacket,
    QuestRemovedPacket,
    QuestListPacket,
    VisualEffectPacket,
    DisplayGainedExperiencePacket,
    DisplayImagePacket,
    StateChangePacket,
    QuestEffectPacket,
    ItemPickupPacket,
    RemoveItemFromInventoryPacket,
    ServerTickPacket,
    RequestPlayerDetailsSuccessPacket,
    RequestEntityDetailsSuccessPacket,
    UpdateEntityHealthPointsPacket,
    RequestPlayerAttackFailedPacket,
    DamagePacket1,
    DamagePacket3,
    NpcDialogPacket,
    RequestEquipItemStatusPacket,
    RequestUnequipItemStatusPacket,
    Packet8302,
    MapServerLoginSuccessPacket,
    RestartResponsePacket,
    DisconnectResponsePacket,
    UseSkillSuccessPacket,
    ToUseSkillSuccessPacket,
    NotifySkillUnitPacket,
    SkillUnitDisappearPacket,
    NotifyGroundSkillPacket,
    FriendListPacket,
    FriendOnlineStatusPacket,
    FriendRequestPacket,
    FriendRequestResultPacket,
    NotifyFriendRemovedPacket,
    PartyInvitePacket,
    StatusChangeSequencePacket,
    ReputationPacket,
    ClanInfoPacket,
    ClanOnlineCountPacket,
    ChangeMapCellPacket,
    OpenMarketPacket,
    BuyOrSellPacket,
    ShopItemListPacket,
    BuyShopItemsResultPacket,
    ParameterChangePacket,
    SellListPacket,
    SellItemsResultPacket,
    RequestStatUpResponsePacket,
    EquipAmmunitionPacket,
    AmmunitionActionPacket,
}

/// What a phase does with a packet it has registered.
#[derive(Debug, Clone, Copy, PartialEq, Eq, Hash, Structural)]
pub enum Handling {
    /// The packet is read, so that the stream stays framed, and dropped.
    Ignore,
    /// The packet is translated into events.
    Translate,
}

/// A packet type was registered twice in one phase: the wiring is wrong.
#[derive(Debug, Clone, Copy, PartialEq, Eq, Structural)]
pub struct DuplicateHandlerError {
    pub packet: PacketKind,
}

/// What a phase does with a packet that arrives.
#[derive(Debug, Clone, Copy, PartialEq, Eq, Structural)]
pub enum Lookup {
    /// No handler is registered: the packet cannot be decoded in this phase.
    Unknown,
    Registered(Handling),
}

/// A registry after one more registration, and whether the registrations so
/// far succeeded. After a failure nothing more is registered, and a packet
/// type that is bound already fails.
pub open spec fn registered_next(
    so_far: (Result<(), DuplicateHandlerError>, Map<PacketKind, Handling>),
    entry: (PacketKind, Handling),
) -> (Result<(), DuplicateHandlerError>, Map<PacketKind, Handling>) {
    if so_far.0 is Err {
        so_far
    } else if so_far.1.contains_key(entry.0) {
        (Err(DuplicateHandlerError { packet: entry.0 }), so_far.1)
    } else {
        (Ok(()), so_far.1.insert(entry.0, entry.1))
    }
}

/// A registry after a list of registrations was made in order, up to the
/// first that failed, and whether all of them succeeded.
pub open spec fn registered_in_order(before: Map<PacketKind, Handling>, entries: Seq<(PacketKind, Handling)>) -> (
    Result<(), DuplicateHandlerError>,
    Map<PacketKind, Handling>,
)
    decreases entries.len(),
{
    if entries.len() == 0 {
        (Ok(()), before)
    } else {
        registered_next(registered_in_order(before, entries.drop_last()), entries.last())
    }
}

/// Registering a list with one more entry at its end is registering the list
/// and then the entry.
pub proof fn lemma_registered_with_one_more(
    before: Map<PacketKind, Handling>,
    entries: Seq<(PacketKind, Handling)>,
    entry: (PacketKind, Handling),
)
    ensures
        registered_in_order(before, entries.push(entry)) == registered_next(
            registered_in_order(before, entries),
            entry,
        ),
{
    assert(entries.push(entry).drop_last() =~= entries);
}

/// Registering two lists one after the other is registering the first and,
/// if that succeeded, the second in the registry that the first left.
pub proof fn lemma_registered_one_list_after_another(
    before: Map<PacketKind, Handling>,
    first: Seq<(PacketKind, Handling)>,
    second: Seq<(PacketKind, Handling)>,
)
    ensures
        registered_in_order(before, first + second) == if registered_in_order(before, first).0 is Err {
            registered_in_order(before, first)
        } else {
            registered_in_order(registered_in_order(before, first).1, second)
        },
    decreases second.len(),
{
    if second.len() == 0 {
        assert(first + second =~= first);
    } else {
        lemma_registered_one_list_after_another(before, first, second.drop_last());
        assert((first + second).drop_last() =~= first + second.drop_last());
        assert((first + second).last() == second.last());
    }
}

/// A failure is final: once a list of registrations has failed, registering
/// more after it changes nothing.
pub proof fn lemma_failure_is_final(
    before: Map<PacketKind, Handling>,
    entries: Seq<(PacketKind, Handling)>,
    all: Seq<(PacketKind, Handling)>,
)
    requires
        entries.is_prefix_of(all),
        registered_in_order(before, entries).0 is Err,
    ensures
        registered_in_order(before, all) == registered_in_order(before, entries),
{
    let more = all.skip(entries.len() as int);
    assert(all =~= entries + more);
    lemma_registered_one_list_after_another(before, entries, more);
}

/// How the registry of a phase relates to the registry before the phase's
/// packet types were registered, where `wiring` says what the phase does with
/// each type.
///
/// Registering succeeds exactly if none of the phase's types was bound
/// before, and then binds each of them as `wiring` says. Where it fails, the
/// error names a type of the phase that was bound before. In either case what
/// was bound before stays bound as it was.
#[verifier::opaque]
pub open spec fn phase_registered(
    before: Map<PacketKind, Handling>,
    wiring: spec_fn(PacketKind) -> Option<Handling>,
    registered: Result<(), DuplicateHandlerError>,
    after: Map<PacketKind, Handling>,
) -> bool {
    &&& registered is Ok <==> forall|kind: PacketKind| #[trigger] wiring(kind) is Some ==> !before.contains_key(kind)
    &&& registered is Ok ==> forall|kind: PacketKind|
        #[trigger] after.get(kind) == match wiring(kind) {
            Some(handling) => Some(handling),
            None => before.get(kind),
        }
    &&& registered matches Err(error) ==> before.contains_key(error.packet) && wiring(error.packet) is Some
    &&& forall|kind: PacketKind| #[trigger] before.contains_key(kind) ==> after.get(kind) == before.get(kind)
}

/// The wiring that knows the packet types of `first` and those of `second`.
pub open spec fn either_wiring(
    first: spec_fn(PacketKind) -> Option<Handling>,
    second: spec_fn(PacketKind) -> Option<Handling>,
) -> spec_fn(PacketKind) -> Option<Handling> {
    |kind: PacketKind|
        if first(kind) is Some {
            first(kind)
        } else {
            second(kind)
        }
}

/// No packet type is known to both wirings.
pub open spec fn apart(
    first: spec_fn(PacketKind) -> Option<Handling>,
    second: spec_fn(PacketKind) -> Option<Handling>,
) -> bool {
    forall|kind: PacketKind| !(#[trigger] first(kind) is Some && #[trigger] second(kind) is Some)
}

/// Registering one group of packet types after another, where the two share
/// no type, comes to registering both at once.
pub proof fn lemma_registered_in_turn(
    before: Map<PacketKind, Handling>,
    first: spec_fn(PacketKind) -> Option<Handling>,
    between: Map<PacketKind, Handling>,
    second: spec_fn(PacketKind) -> Option<Handling>,
    registered: Result<(), DuplicateHandlerError>,
    after: Map<PacketKind, Handling>,
)
    requires
        phase_registered(before, first, Ok(()), between),
        phase_registered(between, second, registered, after),
        apart(first, second),
    ensures
        phase_registered(before, either_wiring(first, second), registered, after),
{
    reveal(phase_registered);
    let both = either_wiring(first, second);
    assert forall|kind: PacketKind| #[trigger] before.contains_key(kind) implies after.get(kind) == before.get(
        kind,
    ) by {
        assert(first(kind) is None);
        assert(between.get(kind) == before.get(kind));
        assert(between.contains_key(kind));
    }
    if registered is Ok {
        assert forall|kind: PacketKind| #[trigger] both(kind) is Some implies !before.contains_key(kind) by {
            if first(kind) is None {
                assert(second(kind) is Some);
                assert(between.get(kind) == before.get(kind));
            }
        }
        assert forall|kind: PacketKind|
            #[trigger] after.get(kind) == match both(kind) {
                Some(handling) => Some(handling),
                None => before.get(kind),
            } by {
            if first(kind) is Some {
                assert(second(kind) is None);
                assert(between.get(kind) == first(kind));
            }
        }
    } else {
        let error = registered->Err_0;
        assert(second(error.packet) is Some);
        assert(first(error.packet) is None);
        assert(between.get(error.packet) == before.get(error.packet));
        assert(both(error.packet) is Some);
    }
}

/// Registering the packet types of a phase in an empty registry succeeds,
/// and leaves exactly the phase's wiring.
pub proof fn lemma_registered_in_empty(
    wiring: spec_fn(PacketKind) -> Option<Handling>,
    registered: Result<(), DuplicateHandlerError>,
    after: Map<PacketKind, Handling>,
)
    requires
        phase_registered(Map::empty(), wiring, registered, after),
    ensures
        registered is Ok,
        forall|kind: PacketKind| #[trigger] after.get(kind) == wiring(kind),
{
    reveal(phase_registered);
    assert forall|kind: PacketKind| #[trigger] after.get(kind) == wiring(kind) by {
        assert(Map::<PacketKind, Handling>::empty().get(kind) is None);
    }
}

/// Registering nothing leaves the registry as it was.
pub proof fn lemma_nothing_registered(before: Map<PacketKind, Handling>)
    ensures
        phase_registered(before, |kind: PacketKind| None::<Handling>, Ok(()), before),
        registered_in_order(before, Seq::empty()) == (Ok::<(), DuplicateHandlerError>(()), before),
{
    reveal(phase_registered);
}

/// What follows for a phase from registering the next of its groups of
/// packet types, after the groups before it were registered without failure.
///
/// However the group's registration ends, the groups so far have then been
/// registered as one, in order. If it fails, the whole phase has failed in
/// the same way, and nothing more is registered.
pub proof fn lemma_next_group(
    before: Map<PacketKind, Handling>,
    done: spec_fn(PacketKind) -> Option<Handling>,
    made: Seq<(PacketKind, Handling)>,
    between: Map<PacketKind, Handling>,
    group: spec_fn(PacketKind) -> Option<Handling>,
    entries: Seq<(PacketKind, Handling)>,
    all: spec_fn(PacketKind) -> Option<Handling>,
    everything: Seq<(PacketKind, Handling)>,
)
    requires
        phase_registered(before, done, Ok(()), between),
        registered_in_order(before, made) == (Ok::<(), DuplicateHandlerError>(()), between),
        apart(done, group),
        forall|kind: PacketKind| #[trigger] group(kind) is Some ==> all(kind) is Some,
        (made + entries).is_prefix_of(everything),
    ensures
        forall|registered: Result<(), DuplicateHandlerError>, after: Map<PacketKind, Handling>| #[trigger]
            phase_registered(between, group, registered, after) ==> phase_registered(
                before,
                either_wiring(done, group),
                registered,
                after,
            ) && (registered is Err ==> phase_registered(before, all, registered, after)),
        registered_in_order(before, made + entries) == registered_in_order(between, entries),
        registered_in_order(between, entries).0 is Err ==> registered_in_order(before, everything)
            == registered_in_order(between, entries),
{
    assert forall|registered: Result<(), DuplicateHandlerError>, after: Map<PacketKind, Handling>| #[trigger]
        phase_registered(between, group, registered, after) implies phase_registered(
        before,
        either_wiring(done, group),
        registered,
        after,
    ) && (registered is Err ==> phase_registered(before, all, registered, after)) by {
        lemma_registered_in_turn(before, done, between, group, registered, after);
        if registered is Err {
            reveal(phase_registered);
        }
    }
    lemma_registered_one_list_after_another(before, made, entries);
    if registered_in_order(between, entries).0 is Err {
        lemma_failure_is_final(before, made + entries, everything);
    }
}

/// Two wirings that agree on every packet type describe the same
/// registration.
pub proof fn lemma_same_wiring(
    before: Map<PacketKind, Handling>,
    first: spec_fn(PacketKind) -> Option<Handling>,
    second: spec_fn(PacketKind) -> Option<Handling>,
    registered: Result<(), DuplicateHandlerError>,
    after: Map<PacketKind, Handling>,
)
    requires
        phase_registered(before, first, registered, after),
        forall|kind: PacketKind| #[trigger] first(kind) == #[trigger] second(kind),
    ensures
        phase_registered(before, second, registered, after),
{
    reveal(phase_registered);
    assert forall|kind: PacketKind|
        #[trigger] after.get(kind) == match second(kind) {
            Some(handling) => Some(handling),
            None => before.get(kind),
        } || !(registered is Ok) by {
        assert(first(kind) == second(kind));
    }
    if registered is Ok {
        assert forall|kind: PacketKind| #[trigger] second(kind) is Some implies !before.contains_key(kind) by {
            assert(first(kind) == second(kind));
        }
    } else {
        assert(first(registered->Err_0.packet) == second(registered->Err_0.packet));
        if forall|kind: PacketKind| #[trigger] second(kind) is Some ==> !before.contains_key(kind) {
            assert(second(registered->Err_0.packet) is Some);
        }
    }
}

/// The packet types of one phase, each with what is done with it.
#[derive(Debug)]
pub struct PacketHandlerRegistry {
    entries: Vec<(PacketKind, Handling)>,
}

impl View for PacketHandlerRegistry {
    type V = Map<PacketKind, Handling>;

    closed spec fn view(&self) -> Map<PacketKind, Handling> {
        Map::new(
            |kind: PacketKind| exists|i: int| 0 <= i < self.entries@.len() && (#[trigger] self.entries@[i]).0 == kind,
            |kind: PacketKind|
                self.entries@[choose|i: int| 0 <= i < self.entries@.len() && (#[trigger] self.entries@[i]).0 == kind].1,
        )
    }
}

impl PacketHandlerRegistry {
    /// No packet type occurs twice.
    pub closed spec fn wf(&self) -> bool {
        &&& forall|i: int, j: int|
            0 <= i < j < self.entries@.len() ==> (#[trigger] self.entries@[i]).0 != (#[trigger] self.entries@[j]).0
        &&& self@.dom().finite()
        &&& self@.dom().len() == self.entries@.len()
    }

    /// A registry without any packet type.
    pub fn new() -> (registry: Self)
        ensures
            registry.wf(),
            registry@ == Map::<PacketKind, Handling>::empty(),
    {
        let registry = PacketHandlerRegistry { entries: Vec::new() };
        assert(registry@ =~= Map::<PacketKind, Handling>::empty());
        registry
    }

    /// What the registry does with packets of a type.
    pub fn lookup(&self, kind: PacketKind) -> (found: Lookup)
        requires
            self.wf(),
        ensures
            found == match self@.get(kind) {
                Some(handling) => Lookup::Registered(handling),
                None => Lookup::Unknown,
            },
    {
        let mut position: usize = 0;
        while position < self.entries.len()
            invariant
                self.wf(),
                position <= self.entries.len(),
                forall|i: int| 0 <= i < position ==> (#[trigger] self.entries@[i]).0 != kind,
            decreases self.entries.len() - position,
        {
            if self.entries[position].0 == kind {
                proof {
                    assert(self.entries@[position as int].0 == kind);
                    let chosen = choose|i: int|
                        0 <= i < self.entries@.len() && (#[trigger] self.entries@[i]).0 == kind;
                    assert(chosen == position);
                }
                return Lookup::Registered(self.entries[position].1);
            }
            position += 1;
        }
        Lookup::Unknown
    }

    /// Binds a packet type to what is done with it. A type that is bound
    /// already is refused, and the registry stays as it was.
    pub fn register_as(&mut self, kind: PacketKind, handling: Handling) -> (registered: Result<
        (),
        DuplicateHandlerError,
    >)
        requires
            old(self).wf(),
        ensures
            final(self).wf(),
            registered == if old(self)@.contains_key(kind) {
                Err::<(), DuplicateHandlerError>(DuplicateHandlerError { packet: kind })
            } else {
                Ok(())
            },
            final(self)@ == if old(self)@.contains_key(kind) {
                old(self)@
            } else {
                old(self)@.insert(kind, handling)
            },
    {
        match self.lookup(kind) {
            Lookup::Registered(_) => Err(DuplicateHandlerError { packet: kind }),
            Lookup::Unknown => {
                let ghost before = self.entries@;
                self.entries.push((kind, handling));
                proof {
                    let after = self.entries@;
                    assert(after == before.push((kind, handling)));
                    assert forall|other: PacketKind| #[trigger]
                        self@.contains_key(other) == old(self)@.insert(kind, handling).contains_key(other) by {
                        if old(self)@.contains_key(other) {
                            let i = choose|i: int| 0 <= i < before.len() && (#[trigger] before[i]).0 == other;
                            assert(after[i].0 == other);
                        }
                        if other == kind {
                            assert(after[before.len() as int].0 == other);
                        }
                        if self@.contains_key(other) && other != kind {
                            let i = choose|i: int| 0 <= i < after.len() && (#[trigger] after[i]).0 == other;
                            assert(before[i].0 == other);
                        }
                    }
                    assert forall|other: PacketKind| self@.contains_key(other) implies #[trigger] self@[other]
                        == old(self)@.insert(kind, handling)[other] by {
                        let i = choose|i: int| 0 <= i < after.len() && (#[trigger] after[i]).0 == other;
                        if other != kind {
                            let j = choose|j: int| 0 <= j < before.len() && (#[trigger] before[j]).0 == other;
                            assert(after[j].0 == other);
                            assert(i == j);
                        } else {
                            assert(after[before.len() as int].0 == other);
                            assert(i == before.len());
                        }
                    }
                    assert(self@ =~= old(self)@.insert(kind, handling));
                }
                Ok(())
            },
        }
    }

    /// Registers a packet type whose packets are translated into events.
    pub fn register(&mut self, kind: PacketKind) -> (registered: Result<(), DuplicateHandlerError>)
        requires
            old(self).wf(),
        ensures
            final(self).wf(),
            registered == if old(self)@.contains_key(kind) {
                Err::<(), DuplicateHandlerError>(DuplicateHandlerError { packet: kind })
            } else {
                Ok(())
            },
            final(self)@ == if old(self)@.contains_key(kind) {
                old(self)@
            } else {
                old(self)@.insert(kind, Handling::Translate)
            },
    {
        self.register_as(kind, Handling::Translate)
    }

    /// Registers a packet type whose packets are read and dropped.
    pub fn register_noop(&mut self, kind: PacketKind) -> (registered: Result<(), DuplicateHandlerError>)
        requires
            old(self).wf(),
        ensures
            final(self).wf(),
            registered == if old(self)@.contains_key(kind) {
                Err::<(), DuplicateHandlerError>(DuplicateHandlerError { packet: kind })
            } else {
                Ok(())
            },
            final(self)@ == if old(self)@.contains_key(kind) {
                old(self)@
            } else {
                old(self)@.insert(kind, Handling::Ignore)
            },
    {
        self.register_as(kind, Handling::Ignore)
    }

    /// The number of packet types registered.
    pub fn len(&self) -> (count: usize)
        requires
            self.wf(),
        ensures
            self@.dom().finite(),
            count == self@.dom().len(),
    {
        self.entries.len()
    }
}

} // verus!
