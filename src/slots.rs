//! Slots of a system: the named targets that payloads are installed into.
use vstd::prelude::*;
use indexmap::IndexMap;
use crate::config::{BlockSlotConfig, SlotConfig};

verus! {

#[verifier::external_type_specification]
#[verifier::external_body]
#[verifier::reject_recursive_types(K)]
#[verifier::reject_recursive_types(V)]
#[verifier::reject_recursive_types(S)]
pub struct ExIndexMap<K, V, S>(IndexMap<K, V, S>);

/// The entries of an ordered slot configuration, in their order.
pub uninterp spec fn slot_config_entries(m: IndexMap<String, SlotConfig>) -> Seq<
    (String, SlotConfig),
>;

/// Relies on `IndexMap::iter`, which yields the entries in their order; each name
/// and configuration is cloned.
#[verifier::external_body]
fn config_entries(m: &IndexMap<String, SlotConfig>) -> (r: Vec<(String, SlotConfig)>)
    ensures
        r@ == slot_config_entries(*m),
{
    m.iter().map(|(name, config)| (name.clone(), config.clone())).collect()
}

/// Partition table types of a root device.
#[derive(Clone, Copy, Debug, PartialEq, Eq, Structural)]
pub enum PartitionTableType {
    Mbr,
    Gpt,
}

/// A block device, by its path.
#[derive(Debug)]
pub struct BlockDevice {
    path: String,
}

impl BlockDevice {
    /// Path of the device.
    pub closed spec fn spec_path(&self) -> Seq<char> {
        self.path@
    }

    /// Block device at the given path.
    pub closed spec fn at(path: String) -> BlockDevice {
        BlockDevice { path }
    }

    /// Block device at the given path.
    pub fn new(path: String) -> (r: BlockDevice)
        ensures
            r.spec_path() == path@,
    {
        BlockDevice { path }
    }

    /// Path of the device.
    pub fn path(&self) -> (r: &str)
        ensures
            r@ == self.spec_path(),
    {
        self.path.as_str()
    }

    /// A second handle on the same device.
    pub fn duplicate(&self) -> (r: BlockDevice)
        ensures
            r == *self,
    {
        BlockDevice { path: self.path.clone() }
    }
}

/// A partition of the root device.
#[derive(Debug)]
pub struct RootPartition {
    pub number: u32,
    pub device: BlockDevice,
}

/// The device that the running system was booted from.
#[derive(Debug)]
pub struct SystemRoot {
    /// Partition table of the root device, if one was detected.
    pub table: Option<PartitionTableType>,
    /// Partitions of the root device.
    pub partitions: Vec<RootPartition>,
}

/// Device of the first partition in `ps` with the given number.
pub open spec fn first_partition(ps: Seq<RootPartition>, number: u32) -> Option<BlockDevice>
    decreases ps.len(),
{
    if ps.len() == 0 {
        None
    } else if ps[0].number == number {
        Some(ps[0].device)
    } else {
        first_partition(ps.drop_first(), number)
    }
}

impl SystemRoot {
    /// Device of the partition with the given number.
    pub open spec fn spec_resolve_partition(&self, number: u32) -> Option<BlockDevice> {
        first_partition(self.partitions@, number)
    }

    /// Device of the partition with the given number, if the root has one.
    pub fn resolve_partition(&self, number: u32) -> (r: Option<BlockDevice>)
        ensures
            r == self.spec_resolve_partition(number),
    {
        let mut i: usize = 0;
        assert(self.partitions@.skip(0) =~= self.partitions@);
        while i < self.partitions.len()
            invariant
                i <= self.partitions@.len(),
                first_partition(self.partitions@, number) == first_partition(
                    self.partitions@.skip(i as int),
                    number,
                ),
            decreases self.partitions@.len() - i,
        {
            assert(self.partitions@.skip(i as int).drop_first() =~= self.partitions@.skip(i + 1));
            if self.partitions[i].number == number {
                return Some(self.partitions[i].device.duplicate());
            }
            i += 1;
        }
        None
    }
}

/// Errors of building the slots of a system.
#[derive(Clone, Debug, PartialEq, Eq)]
pub enum SlotsError {
    /// Slots need the system root, and there is none.
    NoSystemRoot,
    /// No slots are configured and the root has no partition table to take defaults from.
    NoPartitionTable,
    /// The root has no partition of that number for the slot.
    PartitionNotFound { slot: String, partition: u32 },
    /// A block slot names neither a device nor a partition.
    MissingDeviceAndPartition { slot: String },
}

/// What an error of building slots says, with the slot name as characters.
pub enum SlotsErrorView {
    NoSystemRoot,
    NoPartitionTable,
    PartitionNotFound { slot: Seq<char>, partition: u32 },
    MissingDeviceAndPartition { slot: Seq<char> },
}

impl View for SlotsError {
    type V = SlotsErrorView;

    open spec fn view(&self) -> SlotsErrorView {
        match self {
            SlotsError::NoSystemRoot => SlotsErrorView::NoSystemRoot,
            SlotsError::NoPartitionTable => SlotsErrorView::NoPartitionTable,
            SlotsError::PartitionNotFound { slot, partition } => SlotsErrorView::PartitionNotFound {
                slot: slot@,
                partition: *partition,
            },
            SlotsError::MissingDeviceAndPartition { slot } =>
                SlotsErrorView::MissingDeviceAndPartition { slot: slot@ },
        }
    }
}

/// A slot backed by a block device.
#[derive(Debug)]
pub struct BlockSlot {
    device: BlockDevice,
}

impl BlockSlot {
    pub closed spec fn spec_device(&self) -> BlockDevice {
        self.device
    }

    /// Device of the slot.
    pub fn device(&self) -> (r: &BlockDevice)
        ensures
            *r == self.spec_device(),
    {
        &self.device
    }
}

/// What backs a slot.
#[derive(Debug)]
pub enum SlotKind {
    Block(BlockSlot),
    File { path: String },
    Custom { handler: Vec<String> },
}

/// Index of a slot within one set of slots.
#[derive(Clone, Copy, Debug, PartialEq, Eq, Structural, Hash)]
pub struct SlotIdx {
    idx: usize,
}

impl SlotIdx {
    pub closed spec fn spec_index(self) -> int {
        self.idx as int
    }

    /// Position of the slot.
    pub fn position(self) -> (r: usize)
        ensures
            r == self.spec_index(),
    {
        self.idx
    }
}

/// A slot: a named installation target.
#[derive(Debug)]
pub struct Slot {
    name: String,
    kind: SlotKind,
    config: SlotConfig,
    active: bool,
}

/// Whether a slot's configuration makes it immutable.
pub open spec fn config_immutable(config: SlotConfig) -> bool {
    match config {
        SlotConfig::Block(c) => c.immutable == Some(true),
        SlotConfig::File(c) => c.immutable == Some(true),
        SlotConfig::Custom(_) => false,
    }
}

impl Slot {
    pub closed spec fn spec_name(&self) -> Seq<char> {
        self.name@
    }

    pub closed spec fn spec_kind(&self) -> SlotKind {
        self.kind
    }

    pub closed spec fn spec_config(&self) -> SlotConfig {
        self.config
    }

    pub closed spec fn spec_active(&self) -> bool {
        self.active
    }

    /// The same slot, marked active.
    pub closed spec fn spec_marked(&self) -> Slot {
        Slot { active: true, ..*self }
    }

    fn new(name: String, kind: SlotKind, config: SlotConfig) -> (r: Slot)
        ensures
            r.spec_name() == name@,
            r.spec_kind() == kind,
            r.spec_config() == config,
            !r.spec_active(),
    {
        Slot { name, kind, config, active: false }
    }

    /// Name of the slot.
    pub fn name(&self) -> (r: &str)
        ensures
            r@ == self.spec_name(),
    {
        self.name.as_str()
    }

    /// Kind of the slot.
    pub fn kind(&self) -> (r: &SlotKind)
        ensures
            *r == self.spec_kind(),
    {
        &self.kind
    }

    /// Configuration of the slot.
    pub fn config(&self) -> (r: &SlotConfig)
        ensures
            *r == self.spec_config(),
    {
        &self.config
    }

    /// Whether the slot is marked active.
    pub fn active(&self) -> (r: bool)
        ensures
            r == self.spec_active(),
    {
        self.active
    }

    /// Whether the slot is backed by a block device.
    pub fn is_block(&self) -> (r: bool)
        ensures
            r == self.spec_kind() is Block,
    {
        match self.kind {
            SlotKind::Block(_) => true,
            _ => false,
        }
    }

    /// Whether the slot is immutable.
    pub fn is_immutable(&self) -> (r: bool)
        ensures
            r == config_immutable(self.spec_config()),
    {
        match &self.config {
            SlotConfig::Block(config) => config.immutable.unwrap_or(false),
            SlotConfig::File(config) => config.immutable.unwrap_or(false),
            SlotConfig::Custom(_) => false,
        }
    }

    /// Marks the slot active.
    pub fn mark_active(&mut self)
        ensures
            *final(self) == old(self).spec_marked(),
    {
        self.active = true;
    }
}

/// Names of the slots with their configurations.
pub open spec fn entries_view(es: Seq<(String, SlotConfig)>) -> Seq<(Seq<char>, SlotConfig)> {
    es.map_values(|e: (String, SlotConfig)| (e.0@, e.1))
}

/// What a slot's configuration resolves to: the device of a block slot, nothing
/// for the other kinds, or the error that building the slot fails with.
pub open spec fn entry_outcome(root: Option<&SystemRoot>, name: Seq<char>, config: SlotConfig) -> Result<
    Option<BlockDevice>,
    SlotsErrorView,
> {
    match config {
        SlotConfig::Block(c) => match c.device {
            Some(d) => Ok(Some(BlockDevice::at(d))),
            None => match c.partition {
                Some(p) => match root {
                    None => Err(SlotsErrorView::NoSystemRoot),
                    Some(rt) => match rt.spec_resolve_partition(p) {
                        Some(dev) => Ok(Some(dev)),
                        None => Err(SlotsErrorView::PartitionNotFound { slot: name, partition: p }),
                    },
                },
                None => Err(SlotsErrorView::MissingDeviceAndPartition { slot: name }),
            },
        },
        _ => Ok(None),
    }
}

/// Whether `kind` is what a slot of that configuration is backed by, with `device`
/// the resolved device of a block slot.
pub open spec fn kind_matches(kind: SlotKind, config: SlotConfig, device: Option<BlockDevice>) -> bool {
    match config {
        SlotConfig::Block(_) => kind is Block && device == Some(kind->Block_0.spec_device()),
        SlotConfig::File(c) => kind is File && kind->File_path@ == c.path@,
        SlotConfig::Custom(c) => kind is Custom && kind->Custom_handler@ == c.handler@,
    }
}

/// The error of the first entry that cannot be built, if any.
pub open spec fn first_error(root: Option<&SystemRoot>, es: Seq<(Seq<char>, SlotConfig)>) -> Option<
    SlotsErrorView,
>
    decreases es.len(),
{
    if es.len() == 0 {
        None
    } else {
        match entry_outcome(root, es[0].0, es[0].1) {
            Err(e) => Some(e),
            Ok(_) => first_error(root, es.drop_first()),
        }
    }
}

/// Whether `slot` is the slot built from the entry: its name and configuration,
/// inactive, and backed as the configuration says.
pub open spec fn slot_built(root: Option<&SystemRoot>, e: (Seq<char>, SlotConfig), slot: Slot) -> bool {
    &&& slot.spec_name() == e.0
    &&& slot.spec_config() == e.1
    &&& !slot.spec_active()
    &&& entry_outcome(root, e.0, e.1) is Ok
    &&& kind_matches(slot.spec_kind(), e.1, entry_outcome(root, e.0, e.1)->Ok_0)
}

/// Whether `slots` are the slots built from the entries, one each, in order.
pub open spec fn slots_built(
    root: Option<&SystemRoot>,
    es: Seq<(Seq<char>, SlotConfig)>,
    slots: Seq<Slot>,
) -> bool {
    &&& slots.len() == es.len()
    &&& forall|i: int| 0 <= i < es.len() ==> slot_built(root, #[trigger] es[i], slots[i])
}

/// Whether `r` is the outcome of building slots from the entries: the first error,
/// or else the slots.
pub open spec fn build_outcome(
    root: Option<&SystemRoot>,
    es: Seq<(Seq<char>, SlotConfig)>,
    r: Result<SystemSlots, SlotsError>,
) -> bool {
    match first_error(root, es) {
        Some(e) => r is Err && r->Err_0@ == e,
        None => r is Ok && slots_built(root, es, r->Ok_0@),
    }
}

/// Configuration of a default slot on the given partition.
pub open spec fn spec_default_slot_config(partition: u32, immutable: bool) -> SlotConfig {
    SlotConfig::Block(
        BlockSlotConfig { device: None, partition: Some(partition), immutable: Some(immutable) },
    )
}

/// Default slots for a root device with the given partition table.
pub open spec fn default_entries(table: PartitionTableType) -> Seq<(Seq<char>, SlotConfig)> {
    let (system_a, system_b): (u32, u32) = match table {
        PartitionTableType::Mbr => (5, 6),
        PartitionTableType::Gpt => (4, 5),
    };
    seq![
        ("boot-a"@, spec_default_slot_config(2, false)),
        ("boot-b"@, spec_default_slot_config(3, false)),
        ("system-a"@, spec_default_slot_config(system_a, true)),
        ("system-b"@, spec_default_slot_config(system_b, true)),
    ]
}

/// Configuration of a default slot on the given partition.
pub fn default_slot_config(partition: u32, immutable: bool) -> (r: SlotConfig)
    ensures
        r == spec_default_slot_config(partition, immutable),
{
    SlotConfig::Block(
        BlockSlotConfig { device: None, partition: Some(partition), immutable: Some(immutable) },
    )
}

fn default_slots(table: PartitionTableType) -> (r: Vec<(String, SlotConfig)>)
    ensures
        entries_view(r@) == default_entries(table),
{
    let (system_a, system_b): (u32, u32) = match table {
        PartitionTableType::Mbr => (5, 6),
        PartitionTableType::Gpt => (4, 5),
    };
    let mut r: Vec<(String, SlotConfig)> = Vec::new();
    r.push((String::from_str("boot-a"), default_slot_config(2, false)));
    r.push((String::from_str("boot-b"), default_slot_config(3, false)));
    r.push((String::from_str("system-a"), default_slot_config(system_a, true)));
    r.push((String::from_str("system-b"), default_slot_config(system_b, true)));
    assert(entries_view(r@) =~= default_entries(table));
    r
}

/// The slots of a system.
#[derive(Debug)]
pub struct SystemSlots {
    slots: Vec<Slot>,
}

impl View for SystemSlots {
    type V = Seq<Slot>;

    closed spec fn view(&self) -> Seq<Slot> {
        self.slots@
    }
}

/// Builds the kind of a slot from its configuration.
fn slot_kind(root: Option<&SystemRoot>, name: &String, config: &SlotConfig) -> (r: Result<
    SlotKind,
    SlotsError,
>)
    ensures
        match entry_outcome(root, name@, *config) {
            Err(e) => r is Err && r->Err_0@ == e,
            Ok(d) => r is Ok && kind_matches(r->Ok_0, *config, d),
        },
{
    match config {
        SlotConfig::Block(c) => {
            let device = if let Some(device) = &c.device {
                BlockDevice { path: device.clone() }
            } else if let Some(partition) = c.partition {
                let root = match root {
                    Some(root) => root,
                    None => return Err(SlotsError::NoSystemRoot),
                };
                match root.resolve_partition(partition) {
                    Some(device) => device,
                    None => {
                        return Err(SlotsError::PartitionNotFound { slot: name.clone(), partition });
                    },
                }
            } else {
                return Err(SlotsError::MissingDeviceAndPartition { slot: name.clone() });
            };
            Ok(SlotKind::Block(BlockSlot { device }))
        },
        SlotConfig::File(c) => Ok(SlotKind::File { path: c.path.clone() }),
        SlotConfig::Custom(c) => {
            let mut handler: Vec<String> = Vec::new();
            let mut i: usize = 0;
            while i < c.handler.len()
                invariant
                    i <= c.handler@.len(),
                    handler@ == c.handler@.take(i as int),
                decreases c.handler@.len() - i,
            {
                handler.push(c.handler[i].clone());
                i += 1;
                assert(handler@ =~= c.handler@.take(i as int));
            }
            assert(c.handler@.take(i as int) =~= c.handler@);
            Ok(SlotKind::Custom { handler })
        },
    }
}

impl SystemSlots {
    fn from_iter(root: Option<&SystemRoot>, entries: Vec<(String, SlotConfig)>) -> (r: Result<
        Self,
        SlotsError,
    >)
        ensures
            build_outcome(root, entries_view(entries@), r),
    {
        let ghost all = entries_view(entries@);
        let mut rest = entries;
        let mut slots: Vec<Slot> = Vec::new();
        let ghost mut done: int = 0;
        while rest.len() > 0
            invariant
                0 <= done <= all.len(),
                all == entries_view(entries@),
                entries_view(rest@) == all.skip(done),
                first_error(root, all) == first_error(root, all.skip(done)),
                slots_built(root, all.take(done), slots@),
            decreases rest@.len(),
        {
            let ghost before = rest@;
            let (name, config) = rest.remove(0);
            assert(entries_view(before)[0] == (name@, config));
            assert(all.skip(done)[0] == all[done]);
            assert forall|k: int| 0 <= k < rest@.len() implies entries_view(rest@)[k]
                == all.skip(done + 1)[k] by {
                assert(rest@[k] == before[k + 1]);
                assert(entries_view(before)[k + 1] == all.skip(done)[k + 1]);
            }
            assert(entries_view(rest@) =~= all.skip(done + 1));
            assert(all.skip(done).drop_first() =~= all.skip(done + 1));
            let kind = match slot_kind(root, &name, &config) {
                Ok(kind) => kind,
                Err(e) => {
                    assert(all.skip(done).len() > 0);
                    assert(first_error(root, all.skip(done)) == Some(e@));
                    return Err(e);
                },
            };
            let slot = Slot::new(name, kind, config);
            let ghost old_slots = slots@;
            slots.push(slot);
            proof {
                done = done + 1;
                assert forall|i: int| 0 <= i < done implies slot_built(
                    root,
                    #[trigger] all.take(done)[i],
                    slots@[i],
                ) by {
                    if i < done - 1 {
                        assert(all.take(done)[i] == all.take(done - 1)[i]);
                        assert(slots@[i] == old_slots[i]);
                    }
                }
            }
        }
        assert(all.skip(done).len() == 0);
        assert(all.take(done) =~= all);
        Ok(SystemSlots { slots })
    }

    /// Builds the slots of a system from an explicit configuration, or, without one,
    /// from the default layout of the root's partition table.
    pub fn from_config(
        root: Option<&SystemRoot>,
        config: Option<&IndexMap<String, SlotConfig>>,
    ) -> (r: Result<Self, SlotsError>)
        ensures
            match config {
                Some(m) => build_outcome(root, entries_view(slot_config_entries(*m)), r),
                None => match root {
                    None => r is Err && r->Err_0@ == SlotsErrorView::NoSystemRoot,
                    Some(rt) => match rt.table {
                        None => r is Err && r->Err_0@ == SlotsErrorView::NoPartitionTable,
                        Some(t) => build_outcome(root, default_entries(t), r),
                    },
                },
            },
    {
        match config {
            Some(config) => Self::from_iter(root, config_entries(config)),
            None => {
                let rt = match root {
                    Some(rt) => rt,
                    None => return Err(SlotsError::NoSystemRoot),
                };
                let table = match rt.table {
                    Some(table) => table,
                    None => return Err(SlotsError::NoPartitionTable),
                };
                Self::from_iter(root, default_slots(table))
            },
        }
    }

    /// Number of slots.
    pub fn len(&self) -> (r: usize)
        ensures
            r == self@.len(),
    {
        self.slots.len()
    }

    /// The first slot with the given name, with its index.
    pub fn find_by_name(&self, name: &str) -> (r: Option<(SlotIdx, &Slot)>)
        ensures
            match r {
                None => forall|i: int| 0 <= i < self@.len() ==> self@[i].spec_name() != name@,
                Some((idx, slot)) => {
                    &&& 0 <= idx.spec_index() < self@.len()
                    &&& *slot == self@[idx.spec_index()]
                    &&& slot.spec_name() == name@
                    &&& forall|i: int|
                        0 <= i < idx.spec_index() ==> self@[i].spec_name() != name@
                },
            },
    {
        // There are only a few slots, so a linear search suffices.
        let mut i: usize = 0;
        while i < self.slots.len()
            invariant
                i <= self@.len(),
                self@ == self.slots@,
                forall|j: int| 0 <= j < i ==> self@[j].spec_name() != name@,
            decreases self@.len() - i,
        {
            let slot = &self.slots[i];
            if crate::same_text(slot.name.as_str(), name) {
                return Some((SlotIdx { idx: i }, slot));
            }
            i += 1;
        }
        None
    }

    /// The slots with their indices, in order.
    pub fn iter(&self) -> (r: Vec<(SlotIdx, &Slot)>)
        ensures
            r@.len() == self@.len(),
            forall|i: int|
                0 <= i < r@.len() ==> (#[trigger] r@[i]).0.spec_index() == i && *r@[i].1
                    == self@[i],
    {
        let mut r: Vec<(SlotIdx, &Slot)> = Vec::new();
        let mut i: usize = 0;
        while i < self.slots.len()
            invariant
                i <= self@.len(),
                self@ == self.slots@,
                r@.len() == i,
                forall|j: int|
                    0 <= j < i ==> (#[trigger] r@[j]).0.spec_index() == j && *r@[j].1 == self@[j],
            decreases self@.len() - i,
        {
            r.push((SlotIdx { idx: i }, &self.slots[i]));
            i += 1;
        }
        r
    }

    /// The slot at the given index.
    pub fn index(&self, idx: SlotIdx) -> (r: &Slot)
        requires
            idx.spec_index() < self@.len(),
        ensures
            *r == self@[idx.spec_index()],
    {
        &self.slots[idx.idx]
    }

    /// Marks the slot at the given index active, leaving the others as they are.
    pub fn mark_active(&mut self, idx: SlotIdx)
        requires
            idx.spec_index() < old(self)@.len(),
        ensures
            final(self)@ == old(self)@.update(idx.spec_index(), old(self)@[idx.spec_index()].spec_marked()),
    {
        self.slots[idx.idx].mark_active();
    }
}

/// Partition numbers of the default slots, in order.
pub open spec fn default_partitions(table: PartitionTableType) -> Seq<u32> {
    match table {
        PartitionTableType::Mbr => seq![2u32, 3u32, 5u32, 6u32],
        PartitionTableType::Gpt => seq![2u32, 3u32, 4u32, 5u32],
    }
}

/// Names of the default slots, in order.
pub open spec fn default_names() -> Seq<Seq<char>> {
    seq!["boot-a"@, "boot-b"@, "system-a"@, "system-b"@]
}

proof fn lemma_no_error(root: Option<&SystemRoot>, es: Seq<(Seq<char>, SlotConfig)>)
    requires
        forall|i: int| 0 <= i < es.len() ==> (#[trigger] entry_outcome(root, es[i].0, es[i].1)) is Ok,
    ensures
        first_error(root, es) is None,
    decreases es.len(),
{
    if es.len() > 0 {
        assert(entry_outcome(root, es[0].0, es[0].1) is Ok);
        assert forall|i: int| 0 <= i < es.drop_first().len() implies (#[trigger] entry_outcome(
            root,
            es.drop_first()[i].0,
            es.drop_first()[i].1,
        )) is Ok by {
            assert(es.drop_first()[i] == es[i + 1]);
            assert(entry_outcome(root, es[i + 1].0, es[i + 1].1) is Ok);
        }
        lemma_no_error(root, es.drop_first());
    }
}

proof fn lemma_error_found(root: Option<&SystemRoot>, es: Seq<(Seq<char>, SlotConfig)>, i: int)
    requires
        0 <= i < es.len(),
        entry_outcome(root, es[i].0, es[i].1) is Err,
    ensures
        first_error(root, es) is Some,
    decreases i,
{
    if i > 0 && entry_outcome(root, es[0].0, es[0].1) is Ok {
        assert(es.drop_first()[i - 1] == es[i]);
        lemma_error_found(root, es.drop_first(), i - 1);
    }
}

/// Without a slot configuration, a root with a partition table that holds the
/// default partitions gives exactly the four default slots, boot-a, boot-b,
/// system-a and system-b, on partitions 2, 3, 5 and 6 of an MBR table or 2, 3, 4
/// and 5 of a GPT table: each inactive, on the device of its partition, and the
/// system slots immutable.
pub proof fn lemma_default_slots(
    root: &SystemRoot,
    table: PartitionTableType,
    r: Result<SystemSlots, SlotsError>,
)
    requires
        root.table == Some(table),
        forall|i: int|
            0 <= i < 4 ==> (#[trigger] root.spec_resolve_partition(default_partitions(table)[i])) is Some,
        build_outcome(Some(root), default_entries(table), r),
    ensures
        r is Ok,
        r->Ok_0@.len() == 4,
        forall|i: int|
            0 <= i < 4 ==> {
                let slot = #[trigger] r->Ok_0@[i];
                &&& slot.spec_name() == default_names()[i]
                &&& slot.spec_config() == spec_default_slot_config(
                    default_partitions(table)[i],
                    i >= 2,
                )
                &&& slot.spec_kind() is Block
                &&& Some(slot.spec_kind()->Block_0.spec_device()) == root.spec_resolve_partition(
                    default_partitions(table)[i],
                )
                &&& config_immutable(slot.spec_config()) == (i >= 2)
                &&& !slot.spec_active()
            },
{
    let es = default_entries(table);
    assert forall|i: int| 0 <= i < es.len() implies (#[trigger] entry_outcome(
        Some(root),
        es[i].0,
        es[i].1,
    )) is Ok by {
        assert(root.spec_resolve_partition(default_partitions(table)[i]) is Some);
    }
    lemma_no_error(Some(root), es);
    assert forall|i: int| 0 <= i < 4 implies {
        let slot = #[trigger] r->Ok_0@[i];
        &&& slot.spec_name() == default_names()[i]
        &&& slot.spec_config() == spec_default_slot_config(default_partitions(table)[i], i >= 2)
        &&& slot.spec_kind() is Block
        &&& Some(slot.spec_kind()->Block_0.spec_device()) == root.spec_resolve_partition(
            default_partitions(table)[i],
        )
        &&& config_immutable(slot.spec_config()) == (i >= 2)
        &&& !slot.spec_active()
    } by {
        assert(slot_built(Some(root), es[i], r->Ok_0@[i]));
        assert(root.spec_resolve_partition(default_partitions(table)[i]) is Some);
    }
}

/// A block slot that names no device cannot be built when it names no partition
/// either, or when there is no root, or the root has no partition of that number;
/// building a set of slots with such an entry fails.
pub proof fn lemma_unresolvable_block_slot(
    root: Option<&SystemRoot>,
    es: Seq<(Seq<char>, SlotConfig)>,
    i: int,
    r: Result<SystemSlots, SlotsError>,
)
    requires
        0 <= i < es.len(),
        es[i].1 is Block,
        es[i].1->Block_0.device is None,
        ({
            let p = es[i].1->Block_0.partition;
            p is None || root is None || root.unwrap().spec_resolve_partition(p.unwrap()) is None
        }),
        build_outcome(root, es, r),
    ensures
        r is Err,
        es[i].1->Block_0.partition is None ==> entry_outcome(root, es[i].0, es[i].1) == Err::<
            Option<BlockDevice>,
            SlotsErrorView,
        >(SlotsErrorView::MissingDeviceAndPartition { slot: es[i].0 }),
        es[i].1->Block_0.partition is Some && root is None ==> entry_outcome(
            root,
            es[i].0,
            es[i].1,
        ) == Err::<Option<BlockDevice>, SlotsErrorView>(SlotsErrorView::NoSystemRoot),
{
    lemma_error_found(root, es, i);
}

/// Marking a slot active makes it active and leaves its name, kind and
/// configuration, and every other slot, as they were.
pub proof fn lemma_mark_active(slots: Seq<Slot>, i: int)
    requires
        0 <= i < slots.len(),
    ensures
        ({
            let marked = slots.update(i, slots[i].spec_marked());
            &&& marked.len() == slots.len()
            &&& marked[i].spec_active()
            &&& marked[i].spec_name() == slots[i].spec_name()
            &&& marked[i].spec_kind() == slots[i].spec_kind()
            &&& marked[i].spec_config() == slots[i].spec_config()
            &&& forall|j: int| 0 <= j < slots.len() && j != i ==> marked[j] == slots[j]
        }),
{
}

} // verus!
