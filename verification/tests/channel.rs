use mpmc_channel::mpmc::channel;

#[test]
fn channel_round_trip() {
    // send(42) then recv() yields 42; a second immediate recv() fails
    let (tx, rx) = channel::<i32>();
    tx.send(42);
    assert_eq!(rx.recv(), Ok(42));
    assert_eq!(rx.recv(), Err(()));
}

#[test]
fn clones_share_one_queue() {
    // any sender clone's pushes are visible to any receiver clone's pops
    let (tx, rx) = channel::<&'static str>();
    let tx2 = tx.clone();
    let rx2 = rx.clone();
    tx.send("from original");
    tx2.send("from clone");
    assert_eq!(rx2.recv(), Ok("from original"));
    assert_eq!(rx.recv(), Ok("from clone"));
    assert_eq!(rx.recv(), Err(()));
    assert_eq!(rx2.recv(), Err(()));
}

#[test]
fn concurrency_stress() {
    // N producer contexts each pushing M sequential values, N consumer
    // contexts each retrying until N*M values are obtained in total; the
    // contexts run cooperatively interleaved
    const N: usize = 4;
    const M: usize = 50;
    let (tx, rx) = channel::<usize>();
    let senders: Vec<_> = (0..N).map(|_| tx.clone()).collect();
    let receivers: Vec<_> = (0..N).map(|_| rx.clone()).collect();
    let mut got: Vec<usize> = Vec::new();
    for step in 0..M {
        for (p, sender) in senders.iter().enumerate() {
            sender.send(p * M + step);
        }
        // every consumer takes a turn; some turns find nothing
        for consumer in receivers.iter() {
            if let Ok(v) = consumer.recv() {
                got.push(v);
            }
        }
    }
    // drain whatever is still queued, retrying across all consumers
    while got.len() < N * M {
        let mut any = false;
        for consumer in receivers.iter() {
            if let Ok(v) = consumer.recv() {
                got.push(v);
                any = true;
            }
        }
        assert!(any, "values missing although all producers are done");
    }
    assert_eq!(got.len(), N * M);
    let mut sorted = got.clone();
    sorted.sort();
    sorted.dedup();
    assert_eq!(sorted.len(), N * M, "a value was observed twice");
    // per-producer FIFO: each producer's values appear in its push order
    for p in 0..N {
        let mine: Vec<usize> = got.iter().copied().filter(|v| v / M == p).collect();
        let expected: Vec<usize> = (0..M).map(|s| p * M + s).collect();
        assert_eq!(mine, expected);
    }
}
