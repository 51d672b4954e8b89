use async_server::active_server::{PumpOutcome, PumpWork};
use async_server::async_server::{Outcome, Work};
use async_server::bound_connection_future::{ConnectOutcome, ConnectWork, ProtocolLock};
use async_server::shutdown::StopWork;
use async_server::start_server::StartWork;
use async_server::{
    Async, AsyncServer, AsyncServerError, AsyncSink, BindConnectionError, ConnectionError,
    ErrorKind, OldErrorWrapper, Step,
};
use std::io;

type Server = AsyncServer<String, String, String>;

fn refused() -> io::Error {
    io::Error::new(io::ErrorKind::AddrInUse, "address in use")
}

fn listening() -> Server {
    let mut server = Server::new();
    assert!(matches!(
        server.poll(),
        Step::Perform(Work::Start(StartWork::BindListener))
    ));
    let step = server.advance(Outcome::Started(Ok(Ok(()))));
    assert!(matches!(
        step,
        Step::Perform(Work::Connect(ConnectWork::AcceptConnection))
    ));
    server
}

fn active() -> Server {
    let mut server = listening();
    let step = server.advance(Outcome::Connect(ConnectOutcome::Accepted(Ok(Async::Ready(
        Some(()),
    )))));
    assert!(matches!(
        step,
        Step::Perform(Work::Connect(ConnectWork::BindTransport))
    ));
    let step = server.advance(Outcome::Connect(ConnectOutcome::Locked(
        ProtocolLock::Acquired,
    )));
    assert!(matches!(
        step,
        Step::Perform(Work::Connect(ConnectWork::PollTransport))
    ));
    let step = server.advance(Outcome::Connect(ConnectOutcome::Bound(Ok(Async::Ready(())))));
    assert!(matches!(
        step,
        Step::Perform(Work::Pump(PumpWork::GetNewRequest))
    ));
    server
}

fn pump(server: &mut Server, outcome: PumpOutcome<String, String, String>) -> Step<Work<String>, (), AsyncServerError<String, String>> {
    server.advance(Outcome::Pump(outcome))
}

#[test]
fn new_server_binds_first() {
    let mut server = Server::new();
    assert!(matches!(server, AsyncServer::Binding(_)));
    assert!(!server.is_dead());
    assert!(matches!(
        server.poll(),
        Step::Perform(Work::Start(StartWork::BindListener))
    ));
    assert!(matches!(server, AsyncServer::Binding(_)));
}

#[test]
fn bound_listener_leads_to_listening() {
    let server = listening();
    assert!(matches!(server, AsyncServer::Listening(_)));
}

#[test]
fn refused_bind_is_fatal() {
    let mut server = Server::new();
    server.poll();

    let step = server.advance(Outcome::Started(Err(refused())));

    assert!(matches!(
        step,
        Step::Return(Err(AsyncServerError::OldError(OldErrorWrapper(ErrorKind::Io(ref cause)))))
            if cause.kind() == io::ErrorKind::AddrInUse
    ));
    assert!(server.is_dead());
}

#[test]
fn transport_leads_to_the_pump() {
    let server = active();
    assert!(matches!(server, AsyncServer::Active(_)));
}

#[test]
fn waiting_for_a_connection_is_not_ready() {
    let mut server = listening();

    let step = server.advance(Outcome::Connect(ConnectOutcome::Accepted(Ok(
        Async::NotReady,
    ))));

    assert!(matches!(step, Step::Return(Ok(Async::NotReady))));
    assert!(matches!(server, AsyncServer::Listening(_)));
    assert!(matches!(
        server.poll(),
        Step::Perform(Work::Connect(ConnectWork::AcceptConnection))
    ));
}

#[test]
fn waiting_for_the_transport_is_not_ready() {
    let mut server = listening();
    server.advance(Outcome::Connect(ConnectOutcome::Accepted(Ok(Async::Ready(
        Some(()),
    )))));
    server.advance(Outcome::Connect(ConnectOutcome::Locked(
        ProtocolLock::Acquired,
    )));

    let step = server.advance(Outcome::Connect(ConnectOutcome::Bound(Ok(Async::NotReady))));

    assert!(matches!(step, Step::Return(Ok(Async::NotReady))));
    assert!(matches!(
        server.poll(),
        Step::Perform(Work::Connect(ConnectWork::PollTransport))
    ));
}

#[test]
fn accept_failure_is_fatal() {
    let mut server = listening();

    let step = server.advance(Outcome::Connect(ConnectOutcome::Accepted(Err(refused()))));

    assert!(matches!(
        step,
        Step::Return(Err(AsyncServerError::BindError(BindConnectionError::NoConnectionToBind(
            ConnectionError::FailedToReceiveConnection(_)
        ))))
    ));
    assert!(server.is_dead());
}

#[test]
fn end_of_connections_is_fatal() {
    let mut server = listening();

    let step = server.advance(Outcome::Connect(ConnectOutcome::Accepted(Ok(Async::Ready(
        None,
    )))));

    assert!(matches!(
        step,
        Step::Return(Err(AsyncServerError::BindError(BindConnectionError::NoConnectionToBind(
            ConnectionError::NoConnectionsReceived
        ))))
    ));
    assert!(server.is_dead());
}

#[test]
fn poisoned_codec_lock_is_fatal() {
    let mut server = listening();
    server.advance(Outcome::Connect(ConnectOutcome::Accepted(Ok(Async::Ready(
        Some(()),
    )))));

    let step = server.advance(Outcome::Connect(ConnectOutcome::Locked(
        ProtocolLock::Poisoned,
    )));

    assert!(matches!(
        step,
        Step::Return(Err(AsyncServerError::BindError(BindConnectionError::ProtocolLockError)))
    ));
    assert!(server.is_dead());
}

#[test]
fn bind_transport_failure_is_fatal() {
    let mut server = listening();
    server.advance(Outcome::Connect(ConnectOutcome::Accepted(Ok(Async::Ready(
        Some(()),
    )))));
    server.advance(Outcome::Connect(ConnectOutcome::Locked(
        ProtocolLock::Acquired,
    )));

    let step = server.advance(Outcome::Connect(ConnectOutcome::Bound(Err(
        "handshake".to_string()
    ))));

    assert!(matches!(
        step,
        Step::Return(Err(AsyncServerError::BindError(BindConnectionError::BindError(ref cause))))
            if cause == "handshake"
    ));
    assert!(server.is_dead());
}

#[test]
fn failed_service_creation_surfaces_with_the_connection() {
    let mut server = Server::new();
    server.poll();
    let step = server.advance(Outcome::Started(Ok(Err(io::Error::new(
        io::ErrorKind::Other,
        "no service",
    )))));
    assert!(matches!(
        step,
        Step::Perform(Work::Connect(ConnectWork::AcceptConnection))
    ));
    server.advance(Outcome::Connect(ConnectOutcome::Accepted(Ok(Async::Ready(
        Some(()),
    )))));
    server.advance(Outcome::Connect(ConnectOutcome::Locked(
        ProtocolLock::Acquired,
    )));

    let step = server.advance(Outcome::Connect(ConnectOutcome::Bound(Ok(Async::Ready(())))));

    assert!(matches!(
        step,
        Step::Return(Err(AsyncServerError::ServiceCreationError(ref cause)))
            if cause.to_string() == "no service"
    ));
    assert!(server.is_dead());
}

#[test]
fn echo_through_the_whole_lifecycle() {
    let mut server = active();
    let step = pump(&mut server, PumpOutcome::NewRequest(Ok(Async::Ready(Some(())))));
    assert!(matches!(step, Step::Perform(Work::Pump(PumpWork::GetNewResponse))));
    let step = pump(
        &mut server,
        PumpOutcome::NewResponse(Ok(Async::Ready(Some("PONG".to_string())))),
    );
    assert!(matches!(
        step,
        Step::Perform(Work::Pump(PumpWork::SendResponse(ref response))) if response == "PONG"
    ));
    let step = pump(&mut server, PumpOutcome::Sent(Ok(AsyncSink::Ready)));
    assert!(matches!(step, Step::Perform(Work::Pump(PumpWork::FlushResponses))));
    let step = pump(&mut server, PumpOutcome::Flushed(Ok(Async::Ready(()))));
    assert!(matches!(step, Step::Perform(Work::Pump(PumpWork::CheckIfFinished))));

    let step = pump(&mut server, PumpOutcome::FinishedCheck(Ok(true)));

    assert!(matches!(step, Step::Return(Ok(Async::Ready(())))));
    assert!(server.is_dead());
    assert!(matches!(
        server.poll(),
        Step::Return(Err(AsyncServerError::ServerWasShutDown))
    ));
}

#[test]
fn pump_that_blocks_stays_active() {
    let mut server = active();
    pump(&mut server, PumpOutcome::NewRequest(Ok(Async::NotReady)));
    pump(&mut server, PumpOutcome::NewResponse(Ok(Async::Ready(None))));
    pump(&mut server, PumpOutcome::Flushed(Ok(Async::Ready(()))));

    let step = pump(&mut server, PumpOutcome::FinishedCheck(Ok(false)));

    assert!(matches!(step, Step::Return(Ok(Async::NotReady))));
    assert!(matches!(server, AsyncServer::Active(_)));
    assert!(matches!(
        server.poll(),
        Step::Perform(Work::Pump(PumpWork::GetNewRequest))
    ));
}

#[test]
fn pump_failure_ends_the_server() {
    let mut server = active();

    let step = pump(
        &mut server,
        PumpOutcome::NewRequest(Err("bad frame".to_string())),
    );

    assert!(matches!(
        step,
        Step::Return(Err(AsyncServerError::NewRequestError(ref cause))) if cause == "bad frame"
    ));
    assert!(server.is_dead());
}

#[test]
fn dead_server_refuses_polls() {
    let mut server = Server::Dead;
    assert!(matches!(
        server.poll(),
        Step::Return(Err(AsyncServerError::ServerWasShutDown))
    ));
    assert!(matches!(
        server.advance(Outcome::Started(Ok(Ok(())))),
        Step::Return(Err(AsyncServerError::ServerWasShutDown))
    ));
    assert!(server.is_dead());
}

#[test]
fn shutdown_of_dead_server_is_ready_every_time() {
    let mut server = Server::Dead;
    for _ in 0..3 {
        assert!(matches!(server.shutdown(), Step::Return(Ok(Async::Ready(())))));
        assert!(server.is_dead());
    }
    assert!(matches!(server.stopped(Ok(Ok(()))), Ok(Async::Ready(()))));
    assert!(matches!(
        server.stopped(Ok(Err("late".to_string()))),
        Ok(Async::Ready(()))
    ));
    assert!(matches!(
        server.complete_shutdown(Ok(Async::NotReady)),
        Ok(Async::Ready(()))
    ));
    assert!(server.is_dead());
}

#[test]
fn shutdown_while_binding_stops_a_throwaway_service() {
    let mut server = Server::new();

    let step = server.shutdown();

    assert!(matches!(
        step,
        Step::Perform(StopWork::CreateServiceAndForceStop)
    ));
    assert!(matches!(server, AsyncServer::Binding(_)));
    assert!(matches!(server.stopped(Ok(Ok(()))), Ok(Async::Ready(()))));
    assert!(server.is_dead());
}

#[test]
fn shutdown_while_binding_reports_creation_failure() {
    let mut server = Server::new();
    server.shutdown();

    let result = server.stopped(Err(io::Error::new(io::ErrorKind::Other, "no service")));

    assert!(matches!(
        result,
        Err(AsyncServerError::ServiceCreationError(ref cause)) if cause.to_string() == "no service"
    ));
    assert!(server.is_dead());
}

#[test]
fn shutdown_while_binding_reports_stop_failure() {
    let mut server = Server::new();
    server.shutdown();

    let result = server.stopped(Ok(Err("stuck".to_string())));

    assert!(matches!(
        result,
        Err(AsyncServerError::ServiceShutdownError(ref cause)) if cause == "stuck"
    ));
    assert!(server.is_dead());
}

#[test]
fn shutdown_while_listening() {
    let mut server = listening();
    let waiting = server.advance(Outcome::Connect(ConnectOutcome::Accepted(Ok(
        Async::NotReady,
    ))));
    assert!(matches!(waiting, Step::Return(Ok(Async::NotReady))));

    let step = server.shutdown();

    assert!(matches!(step, Step::Perform(StopWork::ForceStop)));
    let result = server.stopped(Ok(Ok(())));
    assert!(matches!(result, Ok(Async::Ready(()))));
    assert!(server.is_dead());
    assert!(matches!(
        server.poll(),
        Step::Return(Err(AsyncServerError::ServerWasShutDown))
    ));
}

#[test]
fn shutdown_while_listening_without_a_service_is_refused() {
    let mut server = Server::new();
    server.poll();
    server.advance(Outcome::Started(Ok(Err(io::Error::new(
        io::ErrorKind::Other,
        "no service",
    )))));

    let step = server.shutdown();

    assert!(matches!(
        step,
        Step::Return(Err(AsyncServerError::IncorrectShutdownInListeningServer))
    ));
    assert!(server.is_dead());
}

#[test]
fn shutdown_during_pump() {
    let mut server = active();
    pump(&mut server, PumpOutcome::NewRequest(Ok(Async::Ready(Some(())))));
    pump(&mut server, PumpOutcome::NewResponse(Ok(Async::NotReady)));
    pump(&mut server, PumpOutcome::Flushed(Ok(Async::Ready(()))));
    server.poll();
    pump(&mut server, PumpOutcome::NewRequest(Ok(Async::Ready(Some(())))));
    match &server {
        AsyncServer::Active(handler) => assert_eq!(handler.live_requests(), 2),
        _ => panic!("the pump should run"),
    }

    let step = server.shutdown();
    assert!(matches!(step, Step::Perform(StopWork::ForceStop)));
    let result = server.stopped(Ok(Ok(())));

    assert!(matches!(result, Ok(Async::Ready(()))));
    assert!(server.is_dead());
    assert!(matches!(
        server.poll(),
        Step::Return(Err(AsyncServerError::ServerWasShutDown))
    ));
}

#[test]
fn shutdown_that_is_not_ready_cancels_the_phase() {
    let mut binding = Server::new();
    assert!(matches!(
        binding.complete_shutdown(Ok(Async::NotReady)),
        Ok(Async::NotReady)
    ));
    assert!(matches!(binding, AsyncServer::BindCancelled(_)));

    let mut waiting = listening();
    assert!(matches!(
        waiting.complete_shutdown(Ok(Async::NotReady)),
        Ok(Async::NotReady)
    ));
    assert!(matches!(waiting, AsyncServer::ListenCancelled(_)));

    let mut pumping = active();
    assert!(matches!(
        pumping.complete_shutdown(Ok(Async::NotReady)),
        Ok(Async::NotReady)
    ));
    assert!(matches!(pumping, AsyncServer::Disconnecting(_)));
}

#[test]
fn cancelled_phases_refuse_polls() {
    let mut server = active();
    server.complete_shutdown(Ok(Async::NotReady));

    assert!(matches!(
        server.poll(),
        Step::Return(Err(AsyncServerError::ShuttingDown))
    ));
    assert!(matches!(
        pump(&mut server, PumpOutcome::Flushed(Ok(Async::Ready(())))),
        Step::Return(Err(AsyncServerError::ShuttingDown))
    ));
    assert!(matches!(server, AsyncServer::Disconnecting(_)));
}

#[test]
fn shutdown_of_a_cancelled_phase_does_not_move_it() {
    let mut server = active();
    server.complete_shutdown(Ok(Async::NotReady));

    assert!(matches!(server.shutdown(), Step::Perform(StopWork::ForceStop)));
    assert!(matches!(server.stopped(Ok(Ok(()))), Ok(Async::Ready(()))));
    assert!(matches!(server, AsyncServer::Disconnecting(_)));

    let mut binding = Server::new();
    binding.complete_shutdown(Ok(Async::NotReady));
    assert!(matches!(
        binding.shutdown(),
        Step::Perform(StopWork::CreateServiceAndForceStop)
    ));
    assert!(matches!(
        binding.shutdown(),
        Step::Return(Err(AsyncServerError::IncorrectShutdownInStartServer))
    ));
    assert!(matches!(binding, AsyncServer::BindCancelled(_)));
}

#[test]
fn shutdown_failure_ends_the_server() {
    let mut server = active();
    server.shutdown();

    let result = server.stopped(Ok(Err("stuck".to_string())));

    assert!(matches!(
        result,
        Err(AsyncServerError::ServiceShutdownError(ref cause)) if cause == "stuck"
    ));
    assert!(server.is_dead());
}

#[test]
fn outcome_of_another_phase_is_dropped() {
    let mut server = listening();

    let step = server.advance(Outcome::Pump(PumpOutcome::FinishedCheck(Ok(true))));

    assert!(matches!(
        step,
        Step::Perform(Work::Connect(ConnectWork::AcceptConnection))
    ));
    assert!(matches!(server, AsyncServer::Listening(_)));
}
