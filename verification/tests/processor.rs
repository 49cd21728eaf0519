use vst3::Steinberg::Vst::{BusInfo_::BusFlags_, BusTypes_, IoModes_, ProcessModes_, SymbolicSampleSizes_};
use vst3_host::component::{BusDirection, MediaType};
use vst3_host::error::Error;
use vst3_host::processor::{
    setup_processing, AudioBus, BusFlags, BusInfo, BusRecord, BusType, InputEventList,
    InputParameterChanges, InputParameterChangesInterface, IoMode, OutputEventList,
    OutputParameterChanges, OutputParameterChangesInterface, ProcessData, ProcessMode,
    ProcessSetup, RoutingInfo, CONTROL_VOLTAGE, DEFAULT_ACTIVE, SAMPLE_32,
};

fn units(text: &str) -> [u16; 128] {
    let mut array = [0u16; 128];
    for (i, unit) in text.encode_utf16().enumerate() {
        array[i] = unit;
    }
    array
}

fn bus_record() -> BusRecord {
    BusRecord {
        media_type: 0,
        direction: 1,
        channel_count: 2,
        name: units("Stereo Out"),
        bus_type: 0,
        flags: 1,
    }
}

#[test]
fn mode_codes_match_the_bindings() {
    assert_eq!(IoMode::Simple.code(), IoModes_::kSimple as i32);
    assert_eq!(IoMode::Advanced.code(), IoModes_::kAdvanced as i32);
    assert_eq!(IoMode::Offline.code(), IoModes_::kOfflineProcessing as i32);
    assert_eq!(ProcessMode::Offline.code(), ProcessModes_::kOffline as i32);
    assert_eq!(ProcessMode::Prefetch.code(), ProcessModes_::kPrefetch as i32);
    assert_eq!(ProcessMode::Realtime.code(), ProcessModes_::kRealtime as i32);
    assert_eq!(BusType::Aux.code(), BusTypes_::kAux as i32);
    assert_eq!(BusType::Main.code(), BusTypes_::kMain as i32);
    assert_eq!(SAMPLE_32, SymbolicSampleSizes_::kSample32 as i32);
    assert_eq!(DEFAULT_ACTIVE, BusFlags_::kDefaultActive as u32);
    assert_eq!(CONTROL_VOLTAGE, BusFlags_::kIsControlVoltage as u32);
}

#[test]
fn bus_type_from_code() {
    assert_eq!(BusType::try_from(0), Ok(BusType::Main));
    assert_eq!(BusType::try_from(1), Ok(BusType::Aux));
    assert_eq!(BusType::try_from(2), Err(Error::InvalidArg));
    assert_eq!(BusType::try_from(-1), Err(Error::InvalidArg));
}

#[test]
fn bus_flags_keep_every_bit() {
    let flags = BusFlags::from_bits_retain(0x8000_0003);
    assert_eq!(flags.bits(), 0x8000_0003);
    assert!(flags.contains(BusFlags::from_bits_retain(DEFAULT_ACTIVE)));
    assert!(flags.contains(BusFlags::from_bits_retain(CONTROL_VOLTAGE)));
    assert!(flags.contains(BusFlags::from_bits_retain(0)));
    assert!(!flags.contains(BusFlags::from_bits_retain(4)));
    assert!(!BusFlags::from_bits_retain(1).contains(BusFlags::from_bits_retain(3)));
}

#[test]
fn bus_info_from_record() {
    let info = BusInfo::from_record(&bus_record()).unwrap();
    assert_eq!(info.media_type, MediaType::Audio);
    assert_eq!(info.dir, BusDirection::Output);
    assert_eq!(info.channel_count, 2);
    assert_eq!(info.name, "Stereo Out");
    assert_eq!(info.bus_type, BusType::Main);
    assert_eq!(info.flags.bits(), 1);
}

#[test]
fn bus_info_rejects_unknown_numbers() {
    let mut record = bus_record();
    record.media_type = 2;
    assert!(matches!(BusInfo::from_record(&record), Err(Error::InvalidArg)));
    let mut record = bus_record();
    record.direction = -1;
    assert!(matches!(BusInfo::from_record(&record), Err(Error::InvalidArg)));
    let mut record = bus_record();
    record.bus_type = 7;
    assert!(matches!(BusInfo::from_record(&record), Err(Error::InvalidArg)));
}

#[test]
fn routing_info_is_plain_data() {
    let routing = RoutingInfo { media_type: MediaType::Event, bus_index: 3, channel: -1 };
    let copy = routing;
    assert_eq!(copy, routing);
    assert_eq!(copy.bus_index, 3);
}

#[test]
fn setup_processing_fills_the_setup() {
    assert_eq!(
        setup_processing(ProcessMode::Offline, 512),
        ProcessSetup { process_mode: 2, symbolic_sample_size: 0, max_samples_per_block: 512 }
    );
    assert_eq!(
        setup_processing(ProcessMode::Realtime, 0),
        ProcessSetup { process_mode: 0, symbolic_sample_size: 0, max_samples_per_block: 0 }
    );
    assert_eq!(
        setup_processing(ProcessMode::Prefetch, i32::MAX as usize).max_samples_per_block,
        i32::MAX
    );
}

#[test]
fn input_events_are_read_only() {
    let list = InputEventList::new(vec![10u32, 20, 30]);
    assert_eq!(list.get_event_count(), 3);
    assert_eq!(list.get_event(0), Ok(10));
    assert_eq!(list.get_event(2), Ok(30));
    assert_eq!(list.get_event(3), Err(Error::False));
    assert_eq!(list.get_event(i32::MAX), Err(Error::False));
    assert_eq!(list.add_event(40), Err(Error::NotImplemented));
    assert_eq!(list.get_event_count(), 3);
    assert_eq!(list.into_events(), vec![10, 20, 30]);
}

#[test]
fn output_events_are_bounded() {
    let mut list = OutputEventList::new(vec![0u32; 2]);
    assert_eq!(list.get_event_count(), 0);
    assert_eq!(list.get_event(0), Err(Error::False));
    assert_eq!(list.add_event(7), Ok(()));
    assert_eq!(list.add_event(8), Ok(()));
    assert_eq!(list.add_event(9), Err(Error::False));
    assert_eq!(list.add_event(10), Err(Error::False));
    assert_eq!(list.get_event_count(), 2);
    assert_eq!(list.get_event(0), Ok(7));
    assert_eq!(list.get_event(1), Ok(8));
    assert_eq!(list.get_event(2), Err(Error::False));
    assert_eq!(list.into_events(), vec![7, 8]);
}

#[test]
fn output_events_without_room() {
    let mut list: OutputEventList<u32> = OutputEventList::new(Vec::new());
    assert_eq!(list.add_event(1), Err(Error::False));
    assert_eq!(list.get_event_count(), 0);
    assert!(list.into_events().is_empty());
}

#[test]
fn output_events_are_cut_to_what_was_written() {
    let mut list = OutputEventList::new(vec![99u32; 8]);
    assert_eq!(list.add_event(1), Ok(()));
    assert_eq!(list.into_events(), vec![1]);
    let list = OutputEventList::new(vec![99u32; 8]);
    assert!(list.into_events().is_empty());
}

#[test]
fn input_parameter_changes_are_read_only() {
    let queue = InputParameterChanges::new(42, vec![(0, 0.25f64), (16, 0.5), (511, 1.0)]);
    assert_eq!(queue.get_parameter_id(), 42);
    assert_eq!(queue.get_point_count(), 3);
    assert_eq!(queue.get_point(0), Ok((0, 0.25)));
    assert_eq!(queue.get_point(2), Ok((511, 1.0)));
    assert_eq!(queue.get_point(3), Err(Error::False));
    assert_eq!(queue.add_point(7, 0.75), Err(Error::NotImplemented));
    assert_eq!(queue.get_point_count(), 3);
}

#[test]
fn output_queue_takes_the_first_points_only() {
    // Room for two points, five writes.
    let mut queue = OutputParameterChanges::new(3, vec![(0, 0.0f64); 2]);
    assert_eq!(queue.get_parameter_id(), 3);
    assert_eq!(queue.get_point_count(), 0);
    assert_eq!(queue.add_point(10, 0.1), Ok(0));
    assert_eq!(queue.add_point(20, 0.2), Ok(1));
    assert_eq!(queue.add_point(30, 0.3), Err(Error::False));
    assert_eq!(queue.add_point(40, 0.4), Err(Error::False));
    assert_eq!(queue.add_point(50, 0.5), Err(Error::False));
    assert_eq!(queue.get_point_count(), 2);
    assert_eq!(queue.get_point(0), Ok((10, 0.1)));
    assert_eq!(queue.get_point(1), Ok((20, 0.2)));
    assert_eq!(queue.get_point(2), Err(Error::False));
    assert_eq!(queue.into_points(), vec![(10, 0.1), (20, 0.2)]);
}

#[test]
fn output_queue_bound_for_every_room() {
    for room in 0..6usize {
        for writes in room..9usize {
            let mut queue = OutputParameterChanges::new(1, vec![(0, 0u64); room]);
            for i in 0..writes {
                let result = queue.add_point(i as i32, i as u64);
                if i < room {
                    assert_eq!(result, Ok(i as i32));
                } else {
                    assert_eq!(result, Err(Error::False));
                }
                assert!(queue.get_point_count() as usize <= i + 1);
            }
            assert_eq!(queue.get_point_count() as usize, room);
            assert_eq!(queue.get_point(room as i32), Err(Error::False));
            let points = queue.into_points();
            assert_eq!(points.len(), room);
            for (i, point) in points.iter().enumerate() {
                assert_eq!(*point, (i as i32, i as u64));
            }
        }
    }
}

#[test]
fn output_queue_can_change_hands() {
    let mut queue = OutputParameterChanges::new(1, vec![(0, 0u8); 1]);
    assert_eq!(queue.add_point(5, 9), Ok(0));
    queue.set_parameter_id(77);
    assert_eq!(queue.get_parameter_id(), 77);
    assert_eq!(queue.get_point(0), Ok((5, 9)));
}

#[test]
fn input_parameter_list_is_read_only() {
    let list = InputParameterChangesInterface::new(vec![
        InputParameterChanges::new(1, vec![(0, 0.5f32)]),
        InputParameterChanges::new(2, Vec::new()),
    ]);
    assert_eq!(list.get_parameter_count(), 2);
    assert_eq!(list.get_parameter_data(0).unwrap().get_parameter_id(), 1);
    assert_eq!(list.get_parameter_data(1).unwrap().get_point_count(), 0);
    assert!(list.get_parameter_data(2).is_none());
    assert_eq!(list.add_parameter_data(3), None);
    assert_eq!(list.into_changes().len(), 2);
}

fn reserved(slots: usize, room: usize) -> OutputParameterChangesInterface<f64> {
    let mut queues = Vec::new();
    for _ in 0..slots {
        queues.push(OutputParameterChanges::new(0, vec![(0, 0.0); room]));
    }
    OutputParameterChangesInterface::new(queues)
}

#[test]
fn output_parameter_list_assigns_on_first_write() {
    let mut list = reserved(2, 4);
    assert_eq!(list.get_parameter_count(), 0);
    assert!(list.get_parameter_data(0).is_none());
    assert_eq!(list.add_parameter_data(100), Some(0));
    assert_eq!(list.get_parameter_count(), 1);
    assert_eq!(list.get_parameter_data(0).unwrap().get_parameter_id(), 100);
    assert_eq!(list.add_parameter_data(200), Some(1));
    assert_eq!(list.get_parameter_count(), 2);
    assert_eq!(list.get_parameter_data(1).unwrap().get_parameter_id(), 200);
    assert!(list.get_parameter_data(2).is_none());
}

#[test]
fn output_parameter_list_finds_an_assigned_queue() {
    let mut list = reserved(3, 4);
    assert_eq!(list.add_parameter_data(100), Some(0));
    assert_eq!(list.add_parameter_data(200), Some(1));
    assert_eq!(list.add_parameter_data(100), Some(0));
    assert_eq!(list.add_parameter_data(200), Some(1));
    assert_eq!(list.get_parameter_count(), 2);
    assert_eq!(list.add_parameter_data(300), Some(2));
    assert_eq!(list.assigned(), 3);
}

#[test]
fn output_parameter_list_is_capped() {
    let mut list = reserved(2, 4);
    assert_eq!(list.add_parameter_data(1), Some(0));
    assert_eq!(list.add_parameter_data(2), Some(1));
    assert_eq!(list.add_parameter_data(3), None);
    assert_eq!(list.add_parameter_data(4), None);
    assert_eq!(list.add_parameter_data(1), Some(0));
    assert_eq!(list.get_parameter_count(), 2);
    let mut none = reserved(0, 4);
    assert_eq!(none.add_parameter_data(1), None);
    assert_eq!(none.get_parameter_count(), 0);
}

#[test]
fn output_parameter_list_writes_points() {
    let mut list = reserved(2, 2);
    let slot = list.add_parameter_data(9).unwrap();
    assert_eq!(list.add_point(slot, 0, 0.5), Ok(0));
    assert_eq!(list.add_point(slot, 8, 0.75), Ok(1));
    assert_eq!(list.add_point(slot, 9, 1.0), Err(Error::False));
    let other = list.add_parameter_data(10).unwrap();
    assert_eq!(list.add_point(other, 3, 0.125), Ok(0));
    assert_eq!(list.get_parameter_data(slot).unwrap().get_point(1), Ok((8, 0.75)));
    assert_eq!(list.get_parameter_data(other).unwrap().get_point(0), Ok((3, 0.125)));
    assert_eq!(list.get_parameter_data(other).unwrap().get_point(1), Err(Error::False));
    let queues = list.into_changes();
    assert_eq!(queues.len(), 2);
    assert_eq!(queues[0].get_parameter_id(), 9);
    assert_eq!(queues[1].get_parameter_id(), 10);
}

fn nothing() -> ProcessData<u32, f64> {
    ProcessData {
        mode: ProcessMode::Offline,
        num_samples: 0,
        input_channels: 0,
        output_channels: 0,
        input_events: Vec::new(),
        output_events: Vec::new(),
        input_params: Vec::new(),
        output_params: Vec::new(),
    }
}

#[test]
fn process_with_nothing() {
    let cid = vst3_host::util::parse_class_id("41347FD6FED64094AFBB12B7DBA1D441");
    assert!(cid.is_ok());
    let setup = setup_processing(ProcessMode::Offline, 512);
    assert_eq!(setup.max_samples_per_block, 512);
    let block = nothing().begin();
    assert_eq!(block.process_mode, 2);
    assert_eq!(block.symbolic_sample_size, 0);
    assert_eq!(block.num_samples, 0);
    assert_eq!(block.num_inputs, 0);
    assert_eq!(block.num_outputs, 0);
    assert_eq!(block.inputs, AudioBus { num_channels: 0, silence_flags: 0 });
    assert_eq!(block.outputs, AudioBus { num_channels: 0, silence_flags: 0 });
    assert_eq!(block.input_events.get_event_count(), 0);
    assert_eq!(block.output_events.get_event_count(), 0);
    assert_eq!(block.input_parameter_changes.get_parameter_count(), 0);
    assert_eq!(block.output_parameter_changes.get_parameter_count(), 0);
    let output = block.finish(vst3::Steinberg::kResultOk);
    assert_eq!(output.result, Ok(()));
    assert!(output.output_events.is_empty());
    assert!(output.output_params.is_empty());
    assert_eq!(output.assigned_params, 0);
}

#[test]
fn process_hands_back_what_was_written() {
    let data = ProcessData {
        mode: ProcessMode::Realtime,
        num_samples: 64,
        input_channels: 2,
        output_channels: 6,
        input_events: vec![1u32, 2, 3],
        output_events: vec![0u32; 4],
        input_params: vec![InputParameterChanges::new(5, vec![(0, 0.5f64)])],
        output_params: vec![
            OutputParameterChanges::new(0, vec![(0, 0.0); 2]),
            OutputParameterChanges::new(0, vec![(0, 0.0); 2]),
        ],
    };
    let mut block = data.begin();
    assert_eq!(block.process_mode, 0);
    assert_eq!(block.num_samples, 64);
    assert_eq!(block.num_inputs, 1);
    assert_eq!(block.num_outputs, 1);
    assert_eq!(block.inputs.num_channels, 2);
    assert_eq!(block.outputs.num_channels, 6);
    assert_eq!(block.input_events.get_event(1), Ok(2));
    assert_eq!(block.input_parameter_changes.get_parameter_data(0).unwrap().get_point(0), Ok((0, 0.5)));

    assert_eq!(block.output_events.add_event(11), Ok(()));
    assert_eq!(block.output_events.add_event(12), Ok(()));
    let slot = block.output_parameter_changes.add_parameter_data(8).unwrap();
    assert_eq!(block.output_parameter_changes.add_point(slot, 4, 0.25), Ok(0));

    assert_eq!(block.output_parameter_changes.reserved(), 2);
    let output = block.finish(vst3::Steinberg::kNotImplemented);
    assert_eq!(output.result, Err(Error::NotImplemented));
    assert_eq!(output.input_events, vec![1, 2, 3]);
    assert_eq!(output.input_params.len(), 1);
    assert_eq!(output.input_params[0].get_point(0), Ok((0, 0.5)));
    assert_eq!(output.output_events, vec![11, 12]);
    assert_eq!(output.assigned_params, 1);
    assert_eq!(output.output_params.len(), 2);
    assert_eq!(output.output_params[0].get_parameter_id(), 8);
    assert_eq!(output.output_params[0].get_point(0), Ok((4, 0.25)));
    assert_eq!(output.output_params[1].get_point_count(), 0);
}

#[test]
fn process_outcome_follows_the_code() {
    assert_eq!(nothing().begin().finish(0).result, Ok(()));
    assert_eq!(nothing().begin().finish(1).result, Err(Error::False));
    assert_eq!(nothing().begin().finish(4).result, Err(Error::Internal));
    assert_eq!(nothing().begin().finish(12345).result, Err(Error::False));
}

#[test]
fn block_hands_over_one_bus_per_side_with_channels() {
    let mut data = nothing();
    data.input_channels = 2;
    let block = data.begin();
    assert_eq!(block.num_inputs, 1);
    assert_eq!(block.inputs.num_channels, 2);
    assert_eq!(block.num_outputs, 0);
    assert_eq!(block.outputs.num_channels, 0);

    let mut data = nothing();
    data.output_channels = 1;
    let block = data.begin();
    assert_eq!(block.num_inputs, 0);
    assert_eq!(block.num_outputs, 1);
    assert_eq!(block.outputs.num_channels, 1);

    let mut data = nothing();
    data.input_channels = 64;
    data.output_channels = i32::MAX as usize;
    assert!(data.check_fits());
    let block = data.begin();
    assert_eq!(block.num_inputs, 1);
    assert_eq!(block.num_outputs, 1);
    assert_eq!(block.inputs.num_channels, 64);
    assert_eq!(block.outputs.num_channels, i32::MAX);
}
