use michadame::filter_type::CrtFilter;
use michadame::filters::{apply_filter, apply_scanlines};
use michadame::handoff::Slot;
use michadame::pipeline::{
    poll_step, reader_step, ConverterAction, DecoderState, PollAction, PollObservation, ReadObservation, ReaderAction,
};

#[test]
fn last_published_value_wins() {
    let mut slot = Slot::new();
    for v in 1..=5u32 {
        slot.publish(v);
    }
    assert_eq!(slot.take(), Some(5));
    assert_eq!(slot.take(), None);
}

#[test]
fn try_publish_drops_new_item_when_occupied() {
    let mut slot = Slot::new();
    assert_eq!(slot.try_publish(1u32), Ok(()));
    assert_eq!(slot.try_publish(2u32), Err(2));
    assert!(slot.is_occupied());
    assert_eq!(slot.take(), Some(1));
    assert!(!slot.is_occupied());
    assert_eq!(slot.try_publish(3u32), Ok(()));
    assert_eq!(slot.take(), Some(3));
}

#[test]
fn reader_decisions() {
    let read = |stop, stream| ReadObservation { stop_requested: stop, packet_stream: stream };
    assert_eq!(reader_step(read(false, Some(0)), 0), ReaderAction::Forward);
    assert_eq!(reader_step(read(false, Some(1)), 0), ReaderAction::Skip);
    assert_eq!(reader_step(read(false, None), 0), ReaderAction::Exit);
    assert_eq!(reader_step(read(true, Some(0)), 0), ReaderAction::Exit);
}

#[test]
fn stop_signal_ends_both_loops_at_the_next_poll() {
    let polls = [(false, true), (false, false), (true, true), (false, true)];
    let mut decoded = 0;
    let mut iterations = 0;
    for (stop, ready) in polls {
        iterations += 1;
        match poll_step(PollObservation { stop_requested: stop, packet_ready: ready }) {
            PollAction::Exit => break,
            PollAction::Decode => decoded += 1,
            PollAction::Yield => {}
        }
    }
    assert_eq!((iterations, decoded), (3, 1));

    let reads = [Some(0usize), Some(2), Some(0), Some(0)];
    let mut forwarded = 0;
    let mut iterations = 0;
    for (k, stream) in reads.into_iter().enumerate() {
        iterations += 1;
        match reader_step(ReadObservation { stop_requested: k >= 2, packet_stream: stream }, 0) {
            ReaderAction::Exit => break,
            ReaderAction::Forward => forwarded += 1,
            ReaderAction::Skip => {}
        }
    }
    assert_eq!((iterations, forwarded), (3, 1));
}

#[test]
fn converter_is_built_once_per_size() {
    let mut st = DecoderState::new();
    assert_eq!(st.converter_for(640, 480), ConverterAction::Build);
    assert_eq!(st.converter_for(640, 480), ConverterAction::Reuse);
    assert_eq!(st.converter_for(1280, 720), ConverterAction::Build);
    assert_eq!(st.converter_size, Some((1280, 720)));
}

#[test]
fn crt_filter_codes_cycle_and_labels() {
    assert_eq!(CrtFilter::from_u8(0), CrtFilter::Off);
    assert_eq!(CrtFilter::from_u8(1), CrtFilter::Scanlines);
    assert_eq!(CrtFilter::from_u8(2), CrtFilter::Lottes);
    assert_eq!(CrtFilter::from_u8(9), CrtFilter::Off);
    assert_eq!(CrtFilter::Off.next(), CrtFilter::Scanlines);
    assert_eq!(CrtFilter::Scanlines.next(), CrtFilter::Lottes);
    assert_eq!(CrtFilter::Lottes.next(), CrtFilter::Off);
    assert_eq!(CrtFilter::Off.to_string(), "Off");
    assert_eq!(CrtFilter::Scanlines.to_string(), "Scanlines");
    assert_eq!(CrtFilter::Lottes.to_string(), "Lottes (Advanced)");
    for f in [CrtFilter::Off, CrtFilter::Scanlines, CrtFilter::Lottes] {
        assert_eq!(CrtFilter::from_u8(f.to_u8()), f);
    }
}

#[test]
fn scanlines_darken_even_rows_saturating() {
    // width 1, three rows and a partial fourth
    let mut data = vec![100, 50, 200, 100, 100, 100, 90, 80, 70, 100, 100];
    apply_scanlines(&mut data, 1, 3);
    assert_eq!(data, vec![20, 0, 120, 100, 100, 100, 10, 0, 0, 100, 100]);
}

#[test]
fn apply_filter_only_scanlines_touch_the_cpu_frame() {
    let original = vec![200u8; 12];
    let mut off = original.clone();
    apply_filter(CrtFilter::Off, &mut off, 2, 2);
    assert_eq!(off, original);
    let mut lottes = original.clone();
    apply_filter(CrtFilter::Lottes, &mut lottes, 2, 2);
    assert_eq!(lottes, original);
    let mut scan = original.clone();
    apply_filter(CrtFilter::Scanlines, &mut scan, 2, 2);
    assert_eq!(scan, vec![120, 120, 120, 120, 120, 120, 200, 200, 200, 200, 200, 200]);
    let mut zero_width = original.clone();
    apply_filter(CrtFilter::Scanlines, &mut zero_width, 0, 2);
    assert_eq!(zero_width, original);
}
