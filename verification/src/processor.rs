//! The processor side of a plug-in: the vocabulary of its buses and the
//! per-block package of events and parameter changes that is handed to it.

use crate::component::{bus_direction_of, media_type_of, BusDirection, MediaType};
use crate::error::{code_result, Error, ToResultExt};
use crate::util::{len_before, lemma_len_before, text_of_units, ToRustString};
use vstd::prelude::*;
use vstd::std_specs::convert::TryFromSpecImpl;

verus! {

/// Bus flag: the bus is active by default.
pub const DEFAULT_ACTIVE: u32 = 1;

/// Bus flag: the bus carries control voltage, not sound.
pub const CONTROL_VOLTAGE: u32 = 2;

/// The sample format of every block: 32-bit samples.
pub const SAMPLE_32: i32 = 0;

/// How the host means to use its inputs and outputs.
#[derive(Copy, Clone, Debug, PartialEq, Eq, Structural)]
pub enum IoMode {
    Simple,
    Advanced,
    Offline,
}

/// How blocks are driven through the processor.
#[derive(Copy, Clone, Debug, PartialEq, Eq, Structural)]
pub enum ProcessMode {
    Offline,
    Prefetch,
    Realtime,
}

/// Whether a bus is a main bus or an auxiliary one.
#[derive(Copy, Clone, Debug, PartialEq, Eq, Structural)]
pub enum BusType {
    Aux,
    Main,
}

/// The flags of a bus.
#[derive(Copy, Clone, Debug, PartialEq, Eq, Structural)]
pub struct BusFlags {
    bits: u32,
}

/// What a processor says about one of its buses.
#[derive(Debug)]
pub struct BusInfo {
    pub media_type: MediaType,
    pub dir: BusDirection,
    pub channel_count: usize,
    pub name: String,
    pub bus_type: BusType,
    pub flags: BusFlags,
}

/// One end of a routing: a channel of a bus.
#[derive(Copy, Clone, Debug, PartialEq, Eq, Structural)]
pub struct RoutingInfo {
    pub media_type: MediaType,
    pub bus_index: usize,
    pub channel: i32,
}

/// What a processor fills in when asked about a bus, as it crosses the
/// boundary.
pub struct BusRecord {
    pub media_type: i32,
    pub direction: i32,
    pub channel_count: i32,
    pub name: [u16; 128],
    pub bus_type: i32,
    pub flags: u32,
}

/// The number that stands for `mode` at the boundary.
pub open spec fn io_mode_code(mode: IoMode) -> i32 {
    match mode {
        IoMode::Simple => 0,
        IoMode::Advanced => 1,
        IoMode::Offline => 2,
    }
}

/// The number that stands for `mode` at the boundary.
pub open spec fn process_mode_code(mode: ProcessMode) -> i32 {
    match mode {
        ProcessMode::Realtime => 0,
        ProcessMode::Prefetch => 1,
        ProcessMode::Offline => 2,
    }
}

/// The number that stands for `bus_type` at the boundary.
pub open spec fn bus_type_code(bus_type: BusType) -> i32 {
    match bus_type {
        BusType::Main => 0,
        BusType::Aux => 1,
    }
}

/// The bus type that `code` stands for; any other number is an invalid
/// argument.
pub open spec fn bus_type_of(code: i32) -> Result<BusType, Error> {
    if code == 1 {
        Ok(BusType::Aux)
    } else if code == 0 {
        Ok(BusType::Main)
    } else {
        Err(Error::InvalidArg)
    }
}

impl IoMode {
    /// The number that stands for this mode at the boundary.
    pub fn code(self) -> (code: i32)
        ensures
            code == io_mode_code(self),
    {
        match self {
            IoMode::Simple => 0,
            IoMode::Advanced => 1,
            IoMode::Offline => 2,
        }
    }
}

impl ProcessMode {
    /// The number that stands for this mode at the boundary.
    pub fn code(self) -> (code: i32)
        ensures
            code == process_mode_code(self),
    {
        match self {
            ProcessMode::Realtime => 0,
            ProcessMode::Prefetch => 1,
            ProcessMode::Offline => 2,
        }
    }
}

impl BusType {
    /// The number that stands for this bus type at the boundary.
    pub fn code(self) -> (code: i32)
        ensures
            code == bus_type_code(self),
    {
        match self {
            BusType::Main => 0,
            BusType::Aux => 1,
        }
    }
}

impl TryFrom<i32> for BusType {
    type Error = Error;

    fn try_from(value: i32) -> (result: Result<BusType, Error>) {
        if value == 1 {
            Ok(BusType::Aux)
        } else if value == 0 {
            Ok(BusType::Main)
        } else {
            Err(Error::InvalidArg)
        }
    }
}

impl TryFromSpecImpl<i32> for BusType {
    open spec fn obeys_try_from_spec() -> bool {
        true
    }

    open spec fn try_from_spec(value: i32) -> Result<BusType, Error> {
        bus_type_of(value)
    }
}

impl BusFlags {
    /// The flag word of this set.
    pub closed spec fn spec_bits(self) -> u32 {
        self.bits
    }

    /// The set that holds exactly the bits of `bits`, known or not.
    pub fn from_bits_retain(bits: u32) -> (flags: BusFlags)
        ensures
            flags.spec_bits() == bits,
    {
        BusFlags { bits }
    }

    /// The flag word of this set.
    #[verifier::when_used_as_spec(spec_bits)]
    pub fn bits(self) -> (bits: u32)
        ensures
            bits == self.spec_bits(),
    {
        self.bits
    }

    /// Whether every flag of `other` is in this set.
    pub fn contains(self, other: BusFlags) -> (all: bool)
        ensures
            all == (self.spec_bits() & other.spec_bits() == other.spec_bits()),
    {
        (self.bits & other.bits) == other.bits
    }
}

/// Whether `record` names a media kind, a direction and a bus type that are
/// known.
pub open spec fn bus_record_is_valid(record: BusRecord) -> bool {
    media_type_of(record.media_type) is Ok && bus_direction_of(record.direction) is Ok
        && bus_type_of(record.bus_type) is Ok
}

impl BusInfo {
    /// Reads the description of a bus from the record that the processor
    /// filled. A media kind, a direction or a bus type that is not known is
    /// an invalid argument.
    pub fn from_record(record: &BusRecord) -> (result: Result<BusInfo, Error>)
        requires
            record.channel_count >= 0,
        ensures
            !bus_record_is_valid(*record) ==> (result matches Err(e) && e == Error::InvalidArg),
            bus_record_is_valid(*record) ==> (result matches Ok(info) && {
                &&& Ok::<MediaType, Error>(info.media_type) == media_type_of(record.media_type)
                &&& Ok::<BusDirection, Error>(info.dir) == bus_direction_of(record.direction)
                &&& info.channel_count == record.channel_count
                &&& info.name@ == text_of_units(record.name@)
                &&& Ok::<BusType, Error>(info.bus_type) == bus_type_of(record.bus_type)
                &&& info.flags.spec_bits() == record.flags
            }),
    {
        let media_type = match MediaType::try_from(record.media_type) {
            Ok(m) => m,
            Err(e) => {
                return Err(e);
            },
        };
        let dir = match BusDirection::try_from(record.direction) {
            Ok(d) => d,
            Err(e) => {
                return Err(e);
            },
        };
        let bus_type = match BusType::try_from(record.bus_type) {
            Ok(t) => t,
            Err(e) => {
                return Err(e);
            },
        };
        Ok(
            BusInfo {
                media_type,
                dir,
                channel_count: record.channel_count as usize,
                name: record.name.to_rust_string(),
                bus_type,
                flags: BusFlags::from_bits_retain(record.flags),
            },
        )
    }
}

/// The events that the host hands to the processor for one block: a
/// read-only list.
pub struct InputEventList<E> {
    events: Vec<E>,
}

impl<E: Copy> InputEventList<E> {
    /// The events of the list, in order.
    pub closed spec fn view(&self) -> Seq<E> {
        self.events@
    }

    /// A list over `events`.
    pub fn new(events: Vec<E>) -> (list: InputEventList<E>)
        ensures
            list@ == events@,
    {
        InputEventList { events }
    }

    /// The event at `index`, or `Error::False` where the list has none there.
    pub fn get_event(&self, index: i32) -> (result: Result<E, Error>)
        requires
            index >= 0,
        ensures
            index < self@.len() ==> result == Ok::<E, Error>(self@[index as int]),
            index >= self@.len() ==> result == Err::<E, Error>(Error::False),
    {
        let index = index as usize;
        if index >= self.events.len() {
            return Err(Error::False);
        }
        Ok(self.events[index])
    }

    /// The number of events in the list.
    pub fn get_event_count(&self) -> (count: i32)
        requires
            self@.len() <= i32::MAX,
        ensures
            count == self@.len(),
    {
        self.events.len() as i32
    }

    /// An input list takes no events: the call is not implemented.
    pub fn add_event(&self, event: E) -> (result: Result<(), Error>)
        ensures
            result == Err::<(), Error>(Error::NotImplemented),
    {
        Err(Error::NotImplemented)
    }

    /// Gives the events back.
    pub fn into_events(self) -> (events: Vec<E>)
        ensures
            events@ == self@,
    {
        self.events
    }
}

/// The events that the processor hands back for one block: a writer over a
/// buffer of fixed size that it fills from the front.
pub struct OutputEventList<E> {
    events: Vec<E>,
    len: usize,
}

impl<E> OutputEventList<E> {
    /// The written events never outnumber the room.
    #[verifier::type_invariant]
    spec fn wf(&self) -> bool {
        self.len <= self.events@.len()
    }
}

impl<E: Copy> OutputEventList<E> {
    /// The events written so far, in order.
    pub closed spec fn view(&self) -> Seq<E> {
        self.events@.take(self.len as int)
    }

    /// The number of events that the list has room for.
    pub closed spec fn spec_capacity(&self) -> nat {
        self.events@.len()
    }

    /// The number of events that the list has room for.
    pub fn capacity(&self) -> (capacity: usize)
        ensures
            capacity == self.spec_capacity(),
    {
        self.events.len()
    }

    /// An empty list that writes into `events`: its length is the room.
    pub fn new(events: Vec<E>) -> (list: OutputEventList<E>)
        ensures
            list@ == Seq::<E>::empty(),
            list.spec_capacity() == events@.len(),
    {
        OutputEventList { events, len: 0 }
    }

    /// The written event at `index`, or `Error::False` where none was
    /// written there.
    pub fn get_event(&self, index: i32) -> (result: Result<E, Error>)
        requires
            index >= 0,
        ensures
            index < self@.len() ==> result == Ok::<E, Error>(self@[index as int]),
            index >= self@.len() ==> result == Err::<E, Error>(Error::False),
    {
        proof {
            use_type_invariant(self);
        }
        let index = index as usize;
        if index >= self.len {
            return Err(Error::False);
        }
        Ok(self.events[index])
    }

    /// The number of events written so far.
    pub fn get_event_count(&self) -> (count: i32)
        requires
            self@.len() <= i32::MAX,
        ensures
            count == self@.len(),
    {
        proof {
            use_type_invariant(self);
        }
        self.len as i32
    }

    /// Appends `event` where there is room; a full list stays as it is and
    /// answers `Error::False`.
    pub fn add_event(&mut self, event: E) -> (result: Result<(), Error>)
        ensures
            final(self)@.len() <= final(self).spec_capacity(),
            final(self).spec_capacity() == old(self).spec_capacity(),
            final(self)@ == after_write(old(self)@, old(self).spec_capacity(), event),
            old(self)@.len() < old(self).spec_capacity() ==> result is Ok,
            old(self)@.len() >= old(self).spec_capacity() ==> result == Err::<(), Error>(
                Error::False,
            ),
    {
        proof {
            use_type_invariant(&*self);
        }
        if self.len >= self.events.len() {
            return Err(Error::False);
        }
        self.events[self.len] = event;
        self.len += 1;
        assert(self@ =~= old(self)@.push(event));
        Ok(())
    }

    /// Ends the block: the buffer cut down to the events that were written.
    pub fn into_events(self) -> (events: Vec<E>)
        ensures
            events@ == self@,
    {
        proof {
            use_type_invariant(&self);
        }
        let mut events = self.events;
        events.truncate(self.len);
        events
    }
}

/// The automation of one parameter that the host hands to the processor for
/// one block: a read-only queue of points, each a sample offset and a value.
pub struct InputParameterChanges<V> {
    points: Vec<(i32, V)>,
    id: u32,
}

impl<V: Copy> InputParameterChanges<V> {
    /// The points of the queue, in order.
    pub closed spec fn view(&self) -> Seq<(i32, V)> {
        self.points@
    }

    /// The parameter that the queue automates.
    pub closed spec fn spec_id(&self) -> u32 {
        self.id
    }

    /// The number of points in the queue.
    pub fn len(&self) -> (len: usize)
        ensures
            len == self@.len(),
    {
        self.points.len()
    }

    /// The queue of the points `points` for the parameter `id`.
    pub fn new(id: u32, points: Vec<(i32, V)>) -> (queue: InputParameterChanges<V>)
        ensures
            queue@ == points@,
            queue.spec_id() == id,
    {
        InputParameterChanges { points, id }
    }

    /// The number of points in the queue.
    pub fn get_point_count(&self) -> (count: i32)
        requires
            self@.len() <= i32::MAX,
        ensures
            count == self@.len(),
    {
        self.points.len() as i32
    }

    /// The point at `index`, or `Error::False` where the queue has none
    /// there.
    pub fn get_point(&self, index: i32) -> (result: Result<(i32, V), Error>)
        requires
            index >= 0,
        ensures
            index < self@.len() ==> result == Ok::<(i32, V), Error>(self@[index as int]),
            index >= self@.len() ==> result == Err::<(i32, V), Error>(Error::False),
    {
        let index = index as usize;
        if index >= self.points.len() {
            return Err(Error::False);
        }
        Ok(self.points[index])
    }

    /// The parameter that the queue automates.
    pub fn get_parameter_id(&self) -> (id: u32)
        ensures
            id == self.spec_id(),
    {
        self.id
    }

    /// An input queue takes no points: the call is not implemented.
    pub fn add_point(&self, offset: i32, value: V) -> (result: Result<i32, Error>)
        ensures
            result == Err::<i32, Error>(Error::NotImplemented),
    {
        Err(Error::NotImplemented)
    }
}

/// The automation of one parameter that the processor hands back for one
/// block: a writer over a buffer of fixed size that it fills from the front.
pub struct OutputParameterChanges<V> {
    points: Vec<(i32, V)>,
    len: usize,
    id: u32,
}

impl<V> OutputParameterChanges<V> {
    /// The written points never outnumber the room.
    #[verifier::type_invariant]
    spec fn wf(&self) -> bool {
        self.len <= self.points@.len()
    }
}

impl<V: Copy> OutputParameterChanges<V> {
    /// The points written so far, in order.
    pub closed spec fn view(&self) -> Seq<(i32, V)> {
        self.points@.take(self.len as int)
    }

    /// The number of points that the queue has room for.
    pub closed spec fn spec_capacity(&self) -> nat {
        self.points@.len()
    }

    /// The number of points that the queue has room for.
    pub fn capacity(&self) -> (capacity: usize)
        ensures
            capacity == self.spec_capacity(),
    {
        self.points.len()
    }

    /// The parameter that the queue automates.
    pub closed spec fn spec_id(&self) -> u32 {
        self.id
    }

    /// An empty queue for the parameter `id` that writes into `points`: its
    /// length is the room.
    pub fn new(id: u32, points: Vec<(i32, V)>) -> (queue: OutputParameterChanges<V>)
        ensures
            queue@ == Seq::<(i32, V)>::empty(),
            queue.spec_capacity() == points@.len(),
            queue.spec_id() == id,
    {
        OutputParameterChanges { points, len: 0, id }
    }

    /// The number of points written so far.
    pub fn get_point_count(&self) -> (count: i32)
        requires
            self@.len() <= i32::MAX,
        ensures
            count == self@.len(),
    {
        proof {
            use_type_invariant(self);
        }
        self.len as i32
    }

    /// The written point at `index`, or `Error::False` where none was
    /// written there.
    pub fn get_point(&self, index: i32) -> (result: Result<(i32, V), Error>)
        requires
            index >= 0,
        ensures
            index < self@.len() ==> result == Ok::<(i32, V), Error>(self@[index as int]),
            index >= self@.len() ==> result == Err::<(i32, V), Error>(Error::False),
    {
        proof {
            use_type_invariant(self);
        }
        let index = index as usize;
        if index >= self.len {
            return Err(Error::False);
        }
        Ok(self.points[index])
    }

    /// The parameter that the queue automates.
    pub fn get_parameter_id(&self) -> (id: u32)
        ensures
            id == self.spec_id(),
    {
        self.id
    }

    /// Hands the queue to the parameter `id`. The points stay.
    pub fn set_parameter_id(&mut self, id: u32)
        ensures
            final(self).spec_id() == id,
            final(self)@ == old(self)@,
            final(self).spec_capacity() == old(self).spec_capacity(),
    {
        proof {
            use_type_invariant(&*self);
        }
        self.id = id;
    }

    /// Appends the point where there is room and answers its place in the
    /// queue; a full queue stays as it is and answers `Error::False`.
    pub fn add_point(&mut self, offset: i32, value: V) -> (result: Result<i32, Error>)
        requires
            old(self).spec_capacity() <= i32::MAX,
        ensures
            final(self)@.len() <= final(self).spec_capacity(),
            final(self).spec_capacity() == old(self).spec_capacity(),
            final(self).spec_id() == old(self).spec_id(),
            final(self)@ == after_write(old(self)@, old(self).spec_capacity(), (offset, value)),
            result == point_answer(old(self)@.len(), old(self).spec_capacity()),
    {
        proof {
            use_type_invariant(&*self);
        }
        if self.len >= self.points.len() {
            return Err(Error::False);
        }
        let place = self.len;
        self.points[place] = (offset, value);
        self.len += 1;
        assert(self@ =~= old(self)@.push((offset, value)));
        Ok(place as i32)
    }

    /// Ends the block: the buffer cut down to the points that were written.
    pub fn into_points(self) -> (points: Vec<(i32, V)>)
        ensures
            points@ == self@,
    {
        proof {
            use_type_invariant(&self);
        }
        let mut points = self.points;
        points.truncate(self.len);
        points
    }
}

/// What a queue that holds `written` points and has room for `capacity`
/// answers to one more point: the place of the new point, which is the
/// number of points before it, or `Error::False` where the queue is full.
pub open spec fn point_answer(written: nat, capacity: nat) -> Result<i32, Error> {
    if written < capacity {
        Ok(written as i32)
    } else {
        Err(Error::False)
    }
}

/// What a bounded writer with room for `capacity` items holds after it was
/// asked to append `item` to `written`: the item is taken where there is
/// room and dropped where there is none.
pub open spec fn after_write<T>(written: Seq<T>, capacity: nat, item: T) -> Seq<T> {
    if written.len() < capacity {
        written.push(item)
    } else {
        written
    }
}

/// What a bounded writer with room for `capacity` items holds after it was
/// asked to append the items of `items` to `written`, one by one.
pub open spec fn after_writes<T>(written: Seq<T>, capacity: nat, items: Seq<T>) -> Seq<T>
    decreases items.len(),
{
    if items.len() == 0 {
        written
    } else {
        after_writes(after_write(written, capacity, items[0]), capacity, items.drop_first())
    }
}

/// The bound of a writer: of the items written one by one into an empty
/// writer with room for `capacity`, the `i`-th is taken if and only if
/// `i` is below `capacity`, and what the writer holds in the end are the
/// first `capacity` items, or all of them where they are fewer. So what
/// can be read back never exceeds what was written.
pub proof fn lemma_bounded_writes<T>(capacity: nat, items: Seq<T>)
    ensures
        items.len() <= capacity ==> after_writes(Seq::<T>::empty(), capacity, items) == items,
        items.len() > capacity ==> after_writes(Seq::<T>::empty(), capacity, items)
            == items.take(capacity as int),
        after_writes(Seq::<T>::empty(), capacity, items).len() <= items.len(),
        forall|i: int|
            0 <= i < items.len() ==> ((#[trigger] after_writes(
                Seq::<T>::empty(),
                capacity,
                items.take(i),
            )).len() < capacity <==> i < capacity),
{
    lemma_writes_from(Seq::<T>::empty(), capacity, items);
    assert(Seq::<T>::empty() + items =~= items);
    if items.len() > capacity {
        assert((Seq::<T>::empty() + items).take(capacity as int) =~= items.take(capacity as int));
    }
    assert forall|i: int| 0 <= i < items.len() implies ((#[trigger] after_writes(
        Seq::<T>::empty(),
        capacity,
        items.take(i),
    )).len() < capacity <==> i < capacity) by {
        lemma_writes_from(Seq::<T>::empty(), capacity, items.take(i));
    }
}

/// Writing into a writer that already holds `written`, which fits: the
/// writer ends with `written` and the new items, cut at `capacity`.
pub proof fn lemma_writes_from<T>(written: Seq<T>, capacity: nat, items: Seq<T>)
    requires
        written.len() <= capacity,
    ensures
        written.len() + items.len() <= capacity ==> after_writes(written, capacity, items)
            == written + items,
        written.len() + items.len() > capacity ==> after_writes(written, capacity, items) == (
        written + items).take(capacity as int),
        after_writes(written, capacity, items).len() <= capacity,
        after_writes(written, capacity, items).len() <= written.len() + items.len(),
    decreases items.len(),
{
    if items.len() == 0 {
        assert(written + items =~= written);
        assert((written + items).take(written.len() as int) =~= written);
    } else {
        let next = after_write(written, capacity, items[0]);
        lemma_writes_from(next, capacity, items.drop_first());
        if written.len() < capacity {
            assert(next + items.drop_first() =~= written + items);
        } else {
            assert(next == written);
            assert((written + items.drop_first()).take(capacity as int) =~= written);
            assert((written + items).take(capacity as int) =~= written);
            if items.drop_first().len() == 0 {
                assert(written + items.drop_first() =~= written);
            }
        }
    }
}

/// The automation that the host hands to the processor for one block: one
/// read-only queue for each automated parameter.
pub struct InputParameterChangesInterface<V> {
    changes: Vec<InputParameterChanges<V>>,
}

impl<V: Copy> InputParameterChangesInterface<V> {
    /// The queues of the list, in order.
    pub closed spec fn view(&self) -> Seq<InputParameterChanges<V>> {
        self.changes@
    }

    /// A list over the queues `changes`.
    pub fn new(changes: Vec<InputParameterChanges<V>>) -> (list: InputParameterChangesInterface<V>)
        ensures
            list@ == changes@,
    {
        InputParameterChangesInterface { changes }
    }

    /// The number of queues in the list.
    pub fn get_parameter_count(&self) -> (count: i32)
        requires
            self@.len() <= i32::MAX,
        ensures
            count == self@.len(),
    {
        self.changes.len() as i32
    }

    /// The queue at `index`, or nothing where the list has none there.
    pub fn get_parameter_data(&self, index: i32) -> (queue: Option<&InputParameterChanges<V>>)
        requires
            index >= 0,
        ensures
            index < self@.len() ==> queue == Some(&self@[index as int]),
            index >= self@.len() ==> queue is None,
    {
        let index = index as usize;
        if index >= self.changes.len() {
            return None;
        }
        Some(&self.changes[index])
    }

    /// An input list hands out no new queue.
    pub fn add_parameter_data(&self, id: u32) -> (slot: Option<i32>)
        ensures
            slot is None,
    {
        None
    }

    /// Gives the queues back.
    pub fn into_changes(self) -> (changes: Vec<InputParameterChanges<V>>)
        ensures
            changes@ == self@,
    {
        self.changes
    }
}

/// The automation that the processor hands back for one block: a fixed
/// number of queues that were reserved beforehand, of which the first ones
/// are assigned to parameters in the order in which these were first
/// written.
pub struct OutputParameterChangesInterface<V> {
    changes: Vec<OutputParameterChanges<V>>,
    len: usize,
}

impl<V> OutputParameterChangesInterface<V> {
    /// The assigned queues are among the reserved ones.
    #[verifier::type_invariant]
    spec fn wf(&self) -> bool {
        self.len <= self.changes@.len()
    }
}

impl<V: Copy> OutputParameterChangesInterface<V> {
    /// All reserved queues, assigned or not.
    pub closed spec fn slots(&self) -> Seq<OutputParameterChanges<V>> {
        self.changes@
    }

    /// The number of queues that are assigned to a parameter.
    pub closed spec fn count(&self) -> nat {
        self.len as nat
    }

    /// The parameters of the assigned queues, in the order of their queues.
    pub open spec fn ids(&self) -> Seq<u32> {
        Seq::new(self.count(), |i: int| self.slots()[i].spec_id())
    }

    /// Whether no two assigned queues belong to one parameter.
    pub open spec fn ids_are_distinct(&self) -> bool {
        forall|i: int, j: int|
            0 <= i < j < self.count() ==> (#[trigger] self.slots()[i]).spec_id() != (
            #[trigger] self.slots()[j]).spec_id()
    }

    /// A list over the reserved queues `changes`, none of them assigned.
    pub fn new(changes: Vec<OutputParameterChanges<V>>) -> (list: OutputParameterChangesInterface<
        V,
    >)
        ensures
            list.slots() == changes@,
            list.count() == 0,
    {
        OutputParameterChangesInterface { changes, len: 0 }
    }

    /// The number of assigned queues.
    pub fn get_parameter_count(&self) -> (count: i32)
        requires
            self.slots().len() <= i32::MAX,
        ensures
            count == self.count(),
    {
        proof {
            use_type_invariant(self);
        }
        self.len as i32
    }

    /// The assigned queue at `index`, or nothing where none is assigned
    /// there.
    pub fn get_parameter_data(&self, index: i32) -> (queue: Option<&OutputParameterChanges<V>>)
        requires
            index >= 0,
        ensures
            index < self.count() ==> queue == Some(&self.slots()[index as int]),
            index >= self.count() ==> queue is None,
    {
        proof {
            use_type_invariant(self);
        }
        let index = index as usize;
        if index >= self.len {
            return None;
        }
        Some(&self.changes[index])
    }

    /// The place of the queue that is assigned to `id`, or the number of
    /// assigned queues where none is.
    pub open spec fn place_of(&self, id: u32) -> int {
        len_before(self.ids(), id) as int
    }

    /// Whether this list is `before` with nothing changed.
    pub open spec fn same_as(&self, before: &Self) -> bool {
        self.slots() == before.slots() && self.count() == before.count()
    }

    /// Whether this list is `before` with its next reserved queue assigned
    /// to `id`: that queue keeps its points and its room, and every other
    /// queue is as it was.
    pub open spec fn extends(&self, before: &Self, id: u32) -> bool {
        let k = before.count() as int;
        &&& self.count() == k + 1
        &&& self.slots().len() == before.slots().len()
        &&& self.ids() == before.ids().push(id)
        &&& self.slots()[k]@ == before.slots()[k]@
        &&& self.slots()[k].spec_capacity() == before.slots()[k].spec_capacity()
        &&& forall|i: int|
            0 <= i < before.slots().len() && i != k ==> self.slots()[i] == before.slots()[i]
    }

    /// The queue of the parameter `id`. Where one is assigned already, its
    /// place is the answer and nothing changes. Else the next reserved
    /// queue is assigned to `id`, with the points it holds, and its place is
    /// the answer. Where no reserved queue is left there is no answer and
    /// nothing changes.
    pub fn add_parameter_data(&mut self, id: u32) -> (slot: Option<i32>)
        requires
            old(self).slots().len() <= i32::MAX,
        ensures
            final(self).count() <= final(self).slots().len(),
            final(self).slots().len() == old(self).slots().len(),
            old(self).ids_are_distinct() ==> final(self).ids_are_distinct(),
            old(self).place_of(id) < old(self).count() <==> old(self).ids().contains(id),
            old(self).ids().contains(id) ==> {
                &&& slot == Some(old(self).place_of(id) as i32)
                &&& final(self).same_as(old(self))
            },
            !old(self).ids().contains(id) && old(self).count() < old(self).slots().len() ==> {
                &&& slot == Some(old(self).count() as i32)
                &&& final(self).extends(old(self), id)
            },
            !old(self).ids().contains(id) && old(self).count() >= old(self).slots().len() ==> {
                &&& slot is None
                &&& final(self).same_as(old(self))
            },
    {
        proof {
            use_type_invariant(&*self);
        }
        let mut index: usize = 0;
        while index < self.len
            invariant
                index <= self.len,
                self.len <= self.changes@.len(),
                self.slots().len() <= i32::MAX,
                *self == *old(self),
                forall|i: int| 0 <= i < index ==> self.ids()[i] != id,
            decreases self.len - index,
        {
            if self.changes[index].get_parameter_id() == id {
                proof {
                    assert(self.ids()[index as int] == id);
                    lemma_len_before(self.ids(), id, index as int);
                }
                return Some(index as i32);
            }
            index += 1;
        }
        proof {
            lemma_len_before(self.ids(), id, index as int);
        }
        if self.len >= self.changes.len() {
            return None;
        }
        let slot = self.len;
        self.changes[slot].set_parameter_id(id);
        self.len += 1;
        proof {
            assert(self.ids() =~= old(self).ids().push(id));
            if old(self).ids_are_distinct() {
                assert forall|i: int, j: int| 0 <= i < j < self.count() implies (
                #[trigger] self.slots()[i]).spec_id() != (#[trigger] self.slots()[j]).spec_id() by {
                    assert(self.slots()[i] == old(self).slots()[i]);
                    if j == slot {
                        assert(old(self).ids()[i] != id);
                    } else {
                        assert(self.slots()[j] == old(self).slots()[j]);
                    }
                }
            }
        }
        Some(slot as i32)
    }

    /// Appends a point to the assigned queue at `slot`, as the queue's own
    /// `add_point` does. Every other queue stays as it is.
    pub fn add_point(&mut self, slot: i32, offset: i32, value: V) -> (result: Result<i32, Error>)
        requires
            0 <= slot < old(self).count(),
            old(self).slots()[slot as int].spec_capacity() <= i32::MAX,
        ensures
            final(self).count() == old(self).count(),
            final(self).ids() == old(self).ids(),
            old(self).ids_are_distinct() ==> final(self).ids_are_distinct(),
            final(self).slots().len() == old(self).slots().len(),
            ({
                let before = old(self).slots()[slot as int];
                let after = final(self).slots()[slot as int];
                &&& after@ == after_write(before@, before.spec_capacity(), (offset, value))
                &&& after.spec_capacity() == before.spec_capacity()
                &&& after.spec_id() == before.spec_id()
                &&& result == point_answer(before@.len(), before.spec_capacity())
            }),
            forall|i: int|
                0 <= i < old(self).slots().len() && i != slot ==> final(self).slots()[i] == old(
                    self).slots()[i],
    {
        proof {
            use_type_invariant(&*self);
        }
        let result = self.changes[slot as usize].add_point(offset, value);
        proof {
            assert(self.ids() =~= old(self).ids());
        }
        result
    }

    /// The number of reserved queues, assigned or not.
    pub fn reserved(&self) -> (count: usize)
        ensures
            count == self.slots().len(),
    {
        self.changes.len()
    }

    /// The number of assigned queues.
    pub fn assigned(&self) -> (count: usize)
        ensures
            count == self.count(),
    {
        self.len
    }

    /// Gives all reserved queues back, the assigned ones first.
    pub fn into_changes(self) -> (changes: Vec<OutputParameterChanges<V>>)
        ensures
            changes@ == self.slots(),
    {
        self.changes
    }
}

/// What the processor is told once, before the first block.
#[derive(Copy, Clone, Debug, PartialEq, Eq, Structural)]
pub struct ProcessSetup {
    pub process_mode: i32,
    pub symbolic_sample_size: i32,
    pub max_samples_per_block: i32,
}

/// The announcement of blocks of at most `max_buffer_size` samples of
/// 32 bits each, driven in the mode `process_mode`.
pub fn setup_processing(process_mode: ProcessMode, max_buffer_size: usize) -> (setup: ProcessSetup)
    requires
        max_buffer_size <= i32::MAX,
    ensures
        setup == (ProcessSetup {
            process_mode: process_mode_code(process_mode),
            symbolic_sample_size: SAMPLE_32,
            max_samples_per_block: max_buffer_size as i32,
        }),
{
    ProcessSetup {
        process_mode: process_mode.code(),
        symbolic_sample_size: SAMPLE_32,
        max_samples_per_block: max_buffer_size as i32,
    }
}

/// What the host prepares for one block, apart from the sample buffers
/// themselves: the mode, the number of samples and of channel buffers on
/// either side, the events and automation that go in, and the reserved
/// buffers for the events and automation that come out.
pub struct ProcessData<E, V> {
    pub mode: ProcessMode,
    pub num_samples: usize,
    pub input_channels: usize,
    pub output_channels: usize,
    pub input_events: Vec<E>,
    pub output_events: Vec<E>,
    pub input_params: Vec<InputParameterChanges<V>>,
    pub output_params: Vec<OutputParameterChanges<V>>,
}

/// One side of the audio of a block: the number of its channel buffers. No
/// channel is flagged as silent.
#[derive(Copy, Clone, Debug, PartialEq, Eq, Structural)]
pub struct AudioBus {
    pub num_channels: i32,
    pub silence_flags: u64,
}

/// The number of bus descriptors that one side of a block hands over: one
/// that holds all channel buffers of the side, or none where the side has
/// no channel buffer.
pub open spec fn bus_count(channels: usize) -> i32 {
    if channels > 0 {
        1
    } else {
        0
    }
}

fn count_buses(channels: usize) -> (count: i32)
    ensures
        count == bus_count(channels),
{
    if channels > 0 {
        1
    } else {
        0
    }
}

/// The package that is handed to the processor for one block and read back
/// after it: the numbers of the block and the four lists. It lives for one
/// call only.
pub struct ProcessBlock<E, V> {
    pub process_mode: i32,
    pub symbolic_sample_size: i32,
    pub num_samples: i32,
    pub num_inputs: i32,
    pub num_outputs: i32,
    pub inputs: AudioBus,
    pub outputs: AudioBus,
    pub input_events: InputEventList<E>,
    pub output_events: OutputEventList<E>,
    pub input_parameter_changes: InputParameterChangesInterface<V>,
    pub output_parameter_changes: OutputParameterChangesInterface<V>,
}

impl<E: Copy, V: Copy> ProcessData<E, V> {
    /// Whether the numbers of the block fit the 32-bit fields of the
    /// boundary: the samples and channels, the events on either side, the
    /// queues on either side, and the points of each queue.
    pub open spec fn fits(&self) -> bool {
        &&& self.num_samples <= i32::MAX
        &&& self.input_channels <= i32::MAX
        &&& self.output_channels <= i32::MAX
        &&& self.input_events@.len() <= i32::MAX
        &&& self.output_events@.len() <= i32::MAX
        &&& self.input_params@.len() <= i32::MAX
        &&& self.output_params@.len() <= i32::MAX
        &&& forall|i: int|
            0 <= i < self.input_params@.len() ==> (#[trigger] self.input_params@[i])@.len()
                <= i32::MAX
        &&& forall|i: int|
            0 <= i < self.output_params@.len() ==> (
            #[trigger] self.output_params@[i]).spec_capacity() <= i32::MAX
    }

    /// Whether `fits` holds, told at run time.
    pub fn check_fits(&self) -> (fits: bool)
        ensures
            fits == self.fits(),
    {
        let limit: usize = 0x7fff_ffff;
        if self.num_samples > limit || self.input_channels > limit || self.output_channels > limit
            || self.input_events.len() > limit || self.output_events.len() > limit
            || self.input_params.len() > limit || self.output_params.len() > limit {
            return false;
        }
        let mut index: usize = 0;
        while index < self.input_params.len()
            invariant
                index <= self.input_params@.len(),
                limit == i32::MAX,
                forall|i: int|
                    0 <= i < index ==> (#[trigger] self.input_params@[i])@.len() <= i32::MAX,
            decreases self.input_params@.len() - index,
        {
            if self.input_params[index].len() > limit {
                return false;
            }
            index += 1;
        }
        let mut index: usize = 0;
        while index < self.output_params.len()
            invariant
                index <= self.output_params@.len(),
                limit == i32::MAX,
                forall|i: int|
                    0 <= i < self.input_params@.len() ==> (#[trigger] self.input_params@[i])@.len()
                        <= i32::MAX,
                forall|i: int|
                    0 <= i < index ==> (#[trigger] self.output_params@[i]).spec_capacity()
                        <= i32::MAX,
            decreases self.output_params@.len() - index,
        {
            if self.output_params[index].capacity() > limit {
                return false;
            }
            index += 1;
        }
        true
    }

    /// Builds the package for one block. Each side that has channel buffers
    /// hands over one bus descriptor with all of them, a side without hands
    /// over none. The input lists hold what the host prepared; the output
    /// lists are empty and have the room that the host reserved.
    pub fn begin(self) -> (block: ProcessBlock<E, V>)
        requires
            self.fits(),
        ensures
            block.process_mode == process_mode_code(self.mode),
            block.symbolic_sample_size == SAMPLE_32,
            block.num_samples == self.num_samples,
            block.num_inputs == bus_count(self.input_channels),
            block.num_outputs == bus_count(self.output_channels),
            block.inputs == (AudioBus {
                num_channels: self.input_channels as i32,
                silence_flags: 0,
            }),
            block.outputs == (AudioBus {
                num_channels: self.output_channels as i32,
                silence_flags: 0,
            }),
            block.input_events@ == self.input_events@,
            block.output_events@ == Seq::<E>::empty(),
            block.output_events.spec_capacity() == self.output_events@.len(),
            block.input_parameter_changes@ == self.input_params@,
            block.output_parameter_changes.count() == 0,
            block.output_parameter_changes.slots() == self.output_params@,
    {
        ProcessBlock {
            process_mode: self.mode.code(),
            symbolic_sample_size: SAMPLE_32,
            num_samples: self.num_samples as i32,
            num_inputs: count_buses(self.input_channels),
            num_outputs: count_buses(self.output_channels),
            inputs: AudioBus { num_channels: self.input_channels as i32, silence_flags: 0 },
            outputs: AudioBus { num_channels: self.output_channels as i32, silence_flags: 0 },
            input_events: InputEventList::new(self.input_events),
            output_events: OutputEventList::new(self.output_events),
            input_parameter_changes: InputParameterChangesInterface::new(self.input_params),
            output_parameter_changes: OutputParameterChangesInterface::new(self.output_params),
        }
    }
}

/// What a block leaves behind: the outcome of the call, what went in, the
/// events that the processor wrote and nothing after them, and the
/// reserved queues with the number of those that were assigned.
pub struct ProcessOutput<E, V> {
    pub result: Result<(), Error>,
    pub input_events: Vec<E>,
    pub input_params: Vec<InputParameterChanges<V>>,
    pub output_events: Vec<E>,
    pub output_params: Vec<OutputParameterChanges<V>>,
    pub assigned_params: usize,
}

impl<E: Copy, V: Copy> ProcessBlock<E, V> {
    /// Reads a block back after the processor answered with `code`. The
    /// output events are cut down to those that were written; everything
    /// else is handed back as it is, so that nothing of the block is kept.
    pub fn finish(self, code: i32) -> (output: ProcessOutput<E, V>)
        ensures
            output.result == code_result(code),
            output.input_events@ == self.input_events@,
            output.input_params@ == self.input_parameter_changes@,
            output.output_events@ == self.output_events@,
            output.output_params@ == self.output_parameter_changes.slots(),
            output.assigned_params == self.output_parameter_changes.count(),
    {
        let assigned_params = self.output_parameter_changes.assigned();
        ProcessOutput {
            result: code.as_result(),
            input_events: self.input_events.into_events(),
            input_params: self.input_parameter_changes.into_changes(),
            output_events: self.output_events.into_events(),
            output_params: self.output_parameter_changes.into_changes(),
            assigned_params,
        }
    }
}

} // verus!
