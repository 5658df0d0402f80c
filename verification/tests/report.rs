use stu::{
    Capability, Delivery, Event, NativeCapability, Pace, PenData, Queue, ReportIds, StatusCodes,
    Tablet, TryRecvError,
};

fn codes() -> StatusCodes {
    StatusCodes {
        success: 0,
        unspecified: 1,
        invalid_handle: 2,
        invalid_parameter: 3,
        invalid_parameter_null_pointer: 4,
        unsupported: 5,
        error: 6,
        error_sizeof: 7,
        exception_unknown: 8,
        exception_std: 9,
        exception_system_error: 10,
        exception_not_connected: 11,
        exception_device_removed: 12,
        exception_write_not_supported: 13,
        exception_io: 14,
        exception_timeout: 15,
        exception_set: 16,
        exception_report_handler: 17,
        exception_encryption_handler: 18,
    }
}

fn capability() -> Capability {
    Capability::from_native(&NativeCapability {
        tablet_max_x: 9600,
        tablet_max_y: 6000,
        tablet_max_pressure: 1023,
        screen_width: 320,
        screen_height: 200,
    })
}

fn tablet() -> Tablet {
    let ids = ReportIds { capability: 9, clear_screen: 32, inking_mode: 33 };
    Tablet::wrap(&codes(), ids, 0, &vec![1; 64]).unwrap()
}

fn open() -> Queue {
    Queue::new(&tablet(), capability())
}

fn pen(x: u16) -> Event {
    Event::Pen { x, y: 2 * x, pressure: 5, in_range: true, touching: true }
}

#[test]
fn queue_yields_events_in_the_order_pushed() {
    let mut queue = open();
    let (e1, e2, e3) = (pen(1), Event::Other { report_id: 3, payload: vec![1, 2] }, pen(3));
    assert!(queue.push(e1.clone()));
    assert!(queue.push(e2.clone()));
    assert!(queue.push(e3.clone()));
    assert_eq!(queue.try_recv(), Ok(e1));
    assert_eq!(queue.try_recv(), Ok(e2));
    assert_eq!(queue.try_recv(), Ok(e3));
    assert_eq!(queue.try_recv(), Err(TryRecvError::Empty));
    assert_eq!(queue.try_recv(), Err(TryRecvError::Empty));
    drop(tablet());
    queue.disconnect();
    assert_eq!(queue.try_recv(), Err(TryRecvError::Disconnected));
}

#[test]
fn queue_reports_disconnection_after_the_tablet_is_dropped() {
    let tablet = tablet();
    let mut queue = Queue::new(&tablet, capability());
    drop(tablet);
    queue.disconnect();
    assert_eq!(queue.try_recv(), Err(TryRecvError::Disconnected));
    assert_eq!(queue.try_recv(), Err(TryRecvError::Disconnected));
}

#[test]
fn new_queue_is_empty() {
    let mut queue = open();
    assert_eq!(queue.try_recv(), Err(TryRecvError::Empty));
    assert_eq!(queue.capability(), capability());
    assert_eq!(queue.capability().width(), 320);
}

#[test]
fn queue_interleaves_pushes_and_receives() {
    let mut queue = open();
    queue.push(pen(1));
    queue.push(pen(2));
    assert_eq!(queue.try_recv(), Ok(pen(1)));
    queue.push(pen(3));
    assert_eq!(queue.try_recv(), Ok(pen(2)));
    assert_eq!(queue.try_recv(), Ok(pen(3)));
    assert_eq!(queue.try_recv(), Err(TryRecvError::Empty));
    queue.push(pen(4));
    assert_eq!(queue.try_recv(), Ok(pen(4)));
}

#[test]
fn queue_does_not_merge_equal_events() {
    let mut queue = open();
    queue.push(pen(7));
    queue.push(pen(7));
    assert_eq!(queue.try_recv(), Ok(pen(7)));
    assert_eq!(queue.try_recv(), Ok(pen(7)));
    assert_eq!(queue.try_recv(), Err(TryRecvError::Empty));
}

#[test]
fn events_that_wait_outlive_the_tablet() {
    let mut queue = open();
    queue.push(pen(1));
    queue.push(pen(2));
    queue.disconnect();
    assert_eq!(queue.try_recv(), Ok(pen(1)));
    assert_eq!(queue.try_recv(), Ok(pen(2)));
    assert_eq!(queue.try_recv(), Err(TryRecvError::Disconnected));
}

#[test]
fn nothing_is_pushed_once_the_tablet_is_gone() {
    let mut queue = open();
    queue.disconnect();
    assert!(!queue.push(pen(1)));
    assert_eq!(queue.try_recv(), Err(TryRecvError::Disconnected));
    queue.disconnect();
    assert!(!queue.push(pen(2)));
    assert_eq!(queue.try_recv(), Err(TryRecvError::Disconnected));
}

#[test]
fn pen_data_becomes_a_pen_event() {
    let data = PenData { rdy: true, sw: 1, pressure: 512, x: 4800, y: 3000 };
    assert_eq!(
        Event::from_pen_data(&data),
        Event::Pen { x: 4800, y: 3000, pressure: 512, in_range: true, touching: true }
    );
}

#[test]
fn pen_touches_while_the_switch_is_not_zero() {
    let hover = PenData { rdy: true, sw: 0, pressure: 0, x: 1, y: 2 };
    assert_eq!(
        Event::from_pen_data(&hover),
        Event::Pen { x: 1, y: 2, pressure: 0, in_range: true, touching: false }
    );
    let away = PenData { rdy: false, sw: 0, pressure: 0, x: 0, y: 0 };
    assert_eq!(
        Event::from_pen_data(&away),
        Event::Pen { x: 0, y: 0, pressure: 0, in_range: false, touching: false }
    );
    let press = PenData { rdy: true, sw: 255, pressure: 65535, x: 65535, y: 65535 };
    assert_eq!(
        Event::from_pen_data(&press),
        Event::Pen { x: 65535, y: 65535, pressure: 65535, in_range: true, touching: true }
    );
}

#[test]
fn other_reports_keep_their_bytes() {
    assert_eq!(
        Event::from_report(3, vec![9, 8, 7]),
        Event::Other { report_id: 3, payload: vec![9, 8, 7] }
    );
}

#[test]
fn decode_prefers_the_pen_sample() {
    let data = PenData { rdy: true, sw: 1, pressure: 9, x: 8, y: 7 };
    assert_eq!(
        Event::decode(Some(data), vec![1, 2, 3]),
        Event::Pen { x: 8, y: 7, pressure: 9, in_range: true, touching: true }
    );
}

#[test]
fn decode_reads_the_identifier_from_the_first_byte() {
    assert_eq!(
        Event::decode(None, vec![3, 0, 1]),
        Event::Other { report_id: 3, payload: vec![3, 0, 1] }
    );
    assert_eq!(
        Event::decode(None, vec![255]),
        Event::Other { report_id: 255, payload: vec![255] }
    );
    assert_eq!(Event::decode(None, vec![]), Event::Other { report_id: 0, payload: vec![] });
}

#[test]
fn delivery_pushes_reports_and_goes_on() {
    let mut queue = open();
    assert_eq!(queue.deliver(Delivery::Report(pen(1))), Pace::Again);
    assert_eq!(queue.deliver(Delivery::Idle), Pace::Pause);
    assert_eq!(queue.deliver(Delivery::Report(pen(2))), Pace::Again);
    assert_eq!(queue.try_recv(), Ok(pen(1)));
    assert_eq!(queue.try_recv(), Ok(pen(2)));
    assert_eq!(queue.try_recv(), Err(TryRecvError::Empty));
}

#[test]
fn delivery_stops_when_the_device_is_closed() {
    let mut queue = open();
    assert_eq!(queue.deliver(Delivery::Report(pen(1))), Pace::Again);
    assert_eq!(queue.deliver(Delivery::Closed), Pace::Stop);
    assert_eq!(queue.deliver(Delivery::Report(pen(2))), Pace::Stop);
    assert_eq!(queue.deliver(Delivery::Idle), Pace::Stop);
    assert_eq!(queue.try_recv(), Ok(pen(1)));
    assert_eq!(queue.try_recv(), Err(TryRecvError::Disconnected));
}
