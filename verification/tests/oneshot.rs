use std::sync::atomic::{AtomicBool, AtomicUsize, Ordering};
use std::sync::Arc;
use sync_primitives::oneshot::{channel, Receiver, Sender};

/// Receives on a loom thread: parks while there is nothing, as a program does.
fn receive<T>(rx: Receiver<T>) -> T {
    let mut rx = rx;
    loop {
        match rx.recv() {
            Ok(value) => return value,
            Err(back) => {
                rx = back;
                loom::thread::park();
            }
        }
    }
}

#[test]
fn tests_vague_loom_test() {
    loom::model(|| {
        let (tx, rx) = channel();
        let receiving_thread = loom::thread::current();
        loom::thread::spawn(move || {
            tx.send(String::from("hello"));
            receiving_thread.unpark();
        });
        let value = receive(rx);

        assert_eq!(value, "hello");
    });
}

#[test]
fn tests_vague_general_test() {
    loom::model(|| {
        let (tx, rx) = channel();
        let receiving_thread = loom::thread::current();
        loom::thread::spawn(move || {
            tx.send(String::from("hello"));
            receiving_thread.unpark();
        });
        let value = receive(rx);

        assert_eq!(value, "hello");
    });
}

#[test]
fn drop_no_recv() {
    struct Wrapper(Arc<AtomicBool>);
    impl Drop for Wrapper {
        fn drop(&mut self) {
            self.0.store(true, Ordering::Relaxed);
        }
    }
    let data = Arc::new(AtomicBool::new(false));
    let wrapper = Wrapper(Arc::clone(&data));

    let (tx, rx) = channel();
    tx.send(wrapper);
    drop(rx);

    let dropped = data.load(Ordering::Relaxed);
    assert!(dropped);
}

#[test]
fn drop_before_send() {
    struct Wrapper(Arc<AtomicBool>);
    impl Drop for Wrapper {
        fn drop(&mut self) {
            self.0.store(true, Ordering::Relaxed);
        }
    }
    let data = Arc::new(AtomicBool::new(false));
    let wrapper = Wrapper(Arc::clone(&data));

    let (tx, rx) = channel();
    drop(rx);
    tx.send(wrapper);

    let dropped = data.load(Ordering::Relaxed);
    assert!(dropped);
}

struct Counted(Arc<AtomicUsize>);

impl Drop for Counted {
    fn drop(&mut self) {
        self.0.fetch_add(1, Ordering::Relaxed);
    }
}

#[test]
fn unreceived_value_is_dropped_once_whichever_end_goes_last() {
    loom::model(|| {
        let drops = Arc::new(AtomicUsize::new(0));
        let value = Counted(Arc::clone(&drops));
        let (tx, rx) = channel();
        let dropper = loom::thread::spawn(move || {
            drop(rx);
        });
        tx.send(value);
        dropper.join().unwrap();
        assert_eq!(drops.load(Ordering::Relaxed), 1);
    });
}

#[test]
fn received_value_is_not_dropped_by_the_channel() {
    let drops = Arc::new(AtomicUsize::new(0));
    let (tx, rx) = channel();
    tx.send(Counted(Arc::clone(&drops)));
    let got = match rx.recv() {
        Ok(value) => value,
        Err(_) => panic!("the value was sent"),
    };
    assert_eq!(drops.load(Ordering::Relaxed), 0);
    drop(got);
    assert_eq!(drops.load(Ordering::Relaxed), 1);
}

#[test]
fn unsent_channel_drops_nothing() {
    let (tx, rx) = channel::<Counted>();
    drop(tx);
    drop(rx);
}

#[test]
fn recv_without_a_value_gives_the_receiver_back() {
    let (tx, rx) = channel::<u32>();
    let rx = match rx.recv() {
        Ok(_) => panic!("nothing was sent"),
        Err(back) => back,
    };
    let rx = match rx.recv() {
        Ok(_) => panic!("nothing was sent"),
        Err(back) => back,
    };
    tx.send(7);
    assert!(matches!(rx.recv(), Ok(7)));
}

#[test]
fn recv_after_the_sender_was_dropped_unsent_finds_nothing() {
    let (tx, rx) = channel::<u32>();
    drop(tx);
    assert!(rx.recv().is_err());
}

fn sendable<T: Send>() {}

#[test]
fn the_ends_of_a_channel_for_sendable_values_are_sendable() {
    sendable::<Sender<String>>();
    sendable::<Receiver<String>>();
}
