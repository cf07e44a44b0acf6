use remmy::client::{decode_response, encode_request};
use remmy::counter_service::{CounterGlobal, CounterLocal, CounterService};
use remmy::errors::RPCError;
use remmy::router::{encode_pending_reply, route_one, RouteOutcome};
use remmy::serialize::Serialize;
use remmy::shutdown::ShutdownFlag;
use remmy::stream::MemStream;

fn request(name: &str, args_wire: &[u8]) -> Vec<u8> {
    let mut out = MemStream::new();
    name.to_string().encode_stream(&mut out).unwrap();
    let mut bytes = out.as_bytes().clone();
    bytes.extend_from_slice(args_wire);
    bytes
}

fn u64_wire(x: u64) -> Vec<u8> {
    let mut out = MemStream::new();
    x.encode_stream(&mut out).unwrap();
    out.as_bytes().clone()
}

fn string_wire(x: &str) -> Vec<u8> {
    let mut out = MemStream::new();
    x.to_string().encode_stream(&mut out).unwrap();
    out.as_bytes().clone()
}

#[test]
fn scenario_echo_seven() {
    let mut g = CounterGlobal::new();
    let mut l = CounterLocal::new();
    let mut req = MemStream::new();
    encode_request(&"echo".to_string(), &7u64, &mut req).unwrap();
    let mut input = MemStream::from_bytes(req.as_bytes().clone());
    let mut out = MemStream::new();
    let outcome = route_one::<CounterService>(true, &mut g, &mut l, &mut input, &mut out);
    assert!(matches!(outcome, RouteOutcome::Replied));
    assert_eq!(decode_response::<u64>(&mut out), Ok(7));
}

#[test]
fn scenario_five_increments() {
    let mut g = CounterGlobal::new();
    let mut l = CounterLocal::new();
    let mut bytes = Vec::new();
    for _ in 0..5 {
        bytes.extend_from_slice(&request("increment", &[]));
    }
    let mut input = MemStream::from_bytes(bytes);
    let mut out = MemStream::new();
    for expected in 1..=5u64 {
        let outcome = route_one::<CounterService>(true, &mut g, &mut l, &mut input, &mut out);
        assert!(matches!(outcome, RouteOutcome::Replied));
        assert_eq!(decode_response::<u64>(&mut out), Ok(expected));
    }
    assert_eq!(g.counter, 5);
}

#[test]
fn counter_increments_and_decrements() {
    let mut g = CounterGlobal::new();
    let mut l = CounterLocal::new();
    let mut bytes = request("increment", &[]);
    bytes.extend_from_slice(&request("increment", &[]));
    bytes.extend_from_slice(&request("decrement", &[]));
    let mut input = MemStream::from_bytes(bytes);
    let mut out = MemStream::new();
    for _ in 0..3 {
        route_one::<CounterService>(true, &mut g, &mut l, &mut input, &mut out);
    }
    assert_eq!(decode_response::<u64>(&mut out), Ok(1));
    assert_eq!(decode_response::<u64>(&mut out), Ok(2));
    assert_eq!(decode_response::<u64>(&mut out), Ok(1));
}

#[test]
fn unknown_procedure_keeps_connection_usable() {
    let mut g = CounterGlobal::new();
    let mut l = CounterLocal::new();
    // a request for an unregistered name, then a valid one on the same stream
    let mut bytes = request("frobnicate", &[]);
    bytes.extend_from_slice(&request("echo", &u64_wire(41)));
    let mut input = MemStream::from_bytes(bytes);
    let mut out = MemStream::new();
    let first = route_one::<CounterService>(true, &mut g, &mut l, &mut input, &mut out);
    assert!(matches!(first, RouteOutcome::Replied));
    assert_eq!(
        decode_response::<u64>(&mut out),
        Err(RPCError::NotAvailable)
    );
    let second = route_one::<CounterService>(true, &mut g, &mut l, &mut input, &mut out);
    assert!(matches!(second, RouteOutcome::Replied));
    assert_eq!(decode_response::<u64>(&mut out), Ok(41));
}

#[test]
fn connections_cache_in_isolation() {
    let mut g = CounterGlobal::new();
    let mut l_one = CounterLocal::new();
    let mut l_two = CounterLocal::new();

    let mut input = MemStream::from_bytes(request("cache", &string_wire("hello")));
    let mut out = MemStream::new();
    route_one::<CounterService>(true, &mut g, &mut l_one, &mut input, &mut out);
    assert_eq!(decode_response::<u64>(&mut out), Ok(1));

    let mut input = MemStream::from_bytes(request("cache", &string_wire("world")));
    let mut out = MemStream::new();
    route_one::<CounterService>(true, &mut g, &mut l_two, &mut input, &mut out);
    assert_eq!(decode_response::<u64>(&mut out), Ok(1));

    let mut input = MemStream::from_bytes(request("fetch_cache", &[]));
    let mut out = MemStream::new();
    route_one::<CounterService>(true, &mut g, &mut l_one, &mut input, &mut out);
    assert_eq!(decode_response::<String>(&mut out), Ok("hello".to_string()));

    let mut input = MemStream::from_bytes(request("fetch_cache", &[]));
    let mut out = MemStream::new();
    route_one::<CounterService>(true, &mut g, &mut l_two, &mut input, &mut out);
    assert_eq!(decode_response::<String>(&mut out), Ok("world".to_string()));
}

#[test]
fn shutdown_twice_then_stopped() {
    let mut g = CounterGlobal::new();
    let mut l_one = CounterLocal::new();
    let mut l_two = CounterLocal::new();

    // two clients ask for a shutdown; both replies wait on the control routine
    let mut input_one = MemStream::from_bytes(request("shutdown", &[]));
    let mut out_one = MemStream::new();
    let first = route_one::<CounterService>(true, &mut g, &mut l_one, &mut input_one, &mut out_one);
    assert!(matches!(first, RouteOutcome::ShutdownPending));
    assert_eq!(g.alive, ShutdownFlag::StopRequested);

    let mut input_two = MemStream::from_bytes(request("shutdown", &[]));
    let mut out_two = MemStream::new();
    let second =
        route_one::<CounterService>(true, &mut g, &mut l_two, &mut input_two, &mut out_two);
    assert!(matches!(second, RouteOutcome::ShutdownPending));
    assert_eq!(g.alive, ShutdownFlag::StopRequested);

    // the control routine observes the request and stops the service
    assert!(g.alive.stop_requested());
    g.alive.acknowledge_stop();
    assert!(g.alive.is_stopped());

    // both pending replies are sent and both callers see success
    encode_pending_reply(&mut out_one).unwrap();
    encode_pending_reply(&mut out_two).unwrap();
    assert_eq!(decode_response::<()>(&mut out_one), Ok(()));
    assert_eq!(decode_response::<()>(&mut out_two), Ok(()));

    // a shutdown call against the stopped service replies at once
    let mut input = MemStream::from_bytes(request("shutdown", &[]));
    let mut out = MemStream::new();
    let third = route_one::<CounterService>(true, &mut g, &mut l_one, &mut input, &mut out);
    assert!(matches!(third, RouteOutcome::Replied));
    assert_eq!(decode_response::<()>(&mut out), Ok(()));
    assert_eq!(g.alive, ShutdownFlag::Stopped);
}

#[test]
fn partial_request_waits_for_more_input() {
    let mut g = CounterGlobal::new();
    let mut l = CounterLocal::new();
    let full = request("echo", &u64_wire(3));
    let partial = full[..full.len() - 3].to_vec();

    let mut input = MemStream::from_bytes(partial);
    let mut out = MemStream::new();
    let outcome = route_one::<CounterService>(false, &mut g, &mut l, &mut input, &mut out);
    assert!(matches!(outcome, RouteOutcome::NeedMoreInput));
    assert!(out.as_bytes().is_empty());

    let mut input = MemStream::from_bytes(full);
    let mut out = MemStream::new();
    let outcome = route_one::<CounterService>(false, &mut g, &mut l, &mut input, &mut out);
    assert!(matches!(outcome, RouteOutcome::Replied));
    assert_eq!(decode_response::<u64>(&mut out), Ok(3));
}

#[test]
fn clean_end_of_stream_hangs_up() {
    let mut g = CounterGlobal::new();
    let mut l = CounterLocal::new();
    let mut input = MemStream::from_bytes(Vec::new());
    let mut out = MemStream::new();
    let outcome = route_one::<CounterService>(true, &mut g, &mut l, &mut input, &mut out);
    assert!(matches!(outcome, RouteOutcome::HangUp));
    assert!(out.as_bytes().is_empty());
}

#[test]
fn malformed_name_reports_and_closes() {
    let mut g = CounterGlobal::new();
    let mut l = CounterLocal::new();
    // a name of one byte that is not UTF-8
    let mut input = MemStream::from_bytes(vec![0, 0, 0, 0, 0, 0, 0, 1, 0xff]);
    let mut out = MemStream::new();
    let outcome = route_one::<CounterService>(true, &mut g, &mut l, &mut input, &mut out);
    assert!(matches!(outcome, RouteOutcome::RepliedClosing));
    assert_eq!(
        decode_response::<u64>(&mut out),
        Err(RPCError::SerializationError)
    );
}

#[test]
fn bad_arguments_report_and_continue() {
    let mut g = CounterGlobal::new();
    let mut l = CounterLocal::new();
    // a cache request whose string argument carries invalid UTF-8, then a
    // valid echo on the same connection
    let mut bytes = request("cache", &[0, 0, 0, 0, 0, 0, 0, 1, 0xff]);
    bytes.extend_from_slice(&request("echo", &u64_wire(9)));
    let mut input = MemStream::from_bytes(bytes);
    let mut out = MemStream::new();
    let first = route_one::<CounterService>(true, &mut g, &mut l, &mut input, &mut out);
    assert!(matches!(first, RouteOutcome::Replied));
    assert_eq!(
        decode_response::<u64>(&mut out),
        Err(RPCError::SerializationError)
    );
    let second = route_one::<CounterService>(true, &mut g, &mut l, &mut input, &mut out);
    assert!(matches!(second, RouteOutcome::Replied));
    assert_eq!(decode_response::<u64>(&mut out), Ok(9));
}

#[test]
fn shutdown_request_is_idempotent_on_the_flag() {
    let mut f = ShutdownFlag::new();
    f.request_stop();
    assert_eq!(f, ShutdownFlag::StopRequested);
    f.request_stop();
    assert_eq!(f, ShutdownFlag::StopRequested);
    f.acknowledge_stop();
    assert_eq!(f, ShutdownFlag::Stopped);
    f.request_stop();
    assert_eq!(f, ShutdownFlag::Stopped);
    f.acknowledge_stop();
    assert_eq!(f, ShutdownFlag::Stopped);
}

#[test]
fn truncated_arguments_at_end_of_stream_report_and_continue() {
    let mut g = CounterGlobal::new();
    let mut l = CounterLocal::new();
    // an echo request that breaks off inside its argument, with the peer gone
    let full = request("echo", &u64_wire(3));
    let cut = full[..full.len() - 3].to_vec();
    let mut input = MemStream::from_bytes(cut);
    let mut out = MemStream::new();
    let outcome = route_one::<CounterService>(true, &mut g, &mut l, &mut input, &mut out);
    assert!(matches!(outcome, RouteOutcome::Replied));
    assert_eq!(
        decode_response::<u64>(&mut out),
        Err(RPCError::SerializationError)
    );
}
