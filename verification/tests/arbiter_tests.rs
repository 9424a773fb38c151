use esp_temperature::drivers::i2c::arbiter::{BusErrorKind, I2cActor, NoAcknowledgeSource, Operation};

#[test]
fn quiet_arbiter_serves_nothing() {
    let mut actor: I2cActor<()> = I2cActor::new(());
    assert_eq!(actor.pending(), 0);
    assert!(actor.serve_one(Ok(())).is_none());
}

#[test]
fn replies_match_their_requests_in_order() {
    let mut actor: I2cActor<()> = I2cActor::new(());

    let t0 = actor.submit(0x10, vec![Operation::Write(vec![0x00]), Operation::Read(2)]);
    let t1 = actor.submit(0x20, vec![Operation::Read(1)]);
    let t2 = actor.submit(0x30, vec![Operation::Write(vec![0xAB])]);
    assert_eq!(actor.pending(), 3);
    assert_ne!(t0, t1);
    assert_ne!(t1, t2);

    let r0 = actor.serve_one(Ok(())).expect("first request pending");
    assert_eq!(r0.ticket, t0);
    assert_eq!(r0.result, Ok(()));

    let r1 = actor
        .serve_one(Err(BusErrorKind::NoAcknowledge(NoAcknowledgeSource::Address)))
        .expect("second request pending");
    assert_eq!(r1.ticket, t1);
    assert_eq!(
        r1.result,
        Err(BusErrorKind::NoAcknowledge(NoAcknowledgeSource::Address))
    );

    let r2 = actor.serve_one(Ok(())).expect("third request pending");
    assert_eq!(r2.ticket, t2);

    assert_eq!(actor.pending(), 0);
    assert!(actor.serve_one(Ok(())).is_none());
}

#[test]
fn each_serve_runs_one_transaction() {
    let mut actor: I2cActor<()> = I2cActor::new(());
    for i in 0..5u8 {
        actor.submit(i, vec![Operation::Read(1)]);
    }
    for _ in 0..5 {
        assert!(actor.serve_one(Ok(())).is_some());
    }
    assert_eq!(actor.pending(), 0);
}

#[test]
fn error_kinds_reach_the_caller() {
    let mut actor: I2cActor<()> = I2cActor::new(());
    let kinds = [
        BusErrorKind::Bus,
        BusErrorKind::ArbitrationLoss,
        BusErrorKind::NoAcknowledge(NoAcknowledgeSource::Data),
        BusErrorKind::Overrun,
        BusErrorKind::Other,
    ];
    for _ in kinds.iter() {
        actor.submit(0x48, vec![Operation::Read(2)]);
    }
    for kind in kinds.iter() {
        let reply = actor.serve_one(Err(*kind)).unwrap();
        assert_eq!(reply.result, Err(*kind));
    }
}
