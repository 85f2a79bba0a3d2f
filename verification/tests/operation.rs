use aw2013::{Command, Operation, Reply, Transfer};

fn sample() -> Vec<Command> {
    vec![
        Command::Write { register: 0x31, value: 0x01 },
        Command::SetBits { register: 0x30, mask: 0b010 },
        Command::ClearBits { register: 0x30, mask: 0b001 },
    ]
}

#[test]
fn empty_operation_is_finished_at_once() {
    let mut operation = Operation::new(0x45, Vec::new());
    assert_eq!(operation.pending(), Transfer::Finished);
    assert!(operation.is_finished());
    assert!(!operation.has_failed());
    operation.advance(Reply::Written);
    operation.advance(Reply::Failed);
    assert_eq!(operation.pending(), Transfer::Finished);
    assert!(!operation.has_failed());
    assert_eq!(operation.completed(), 0);
}

#[test]
fn operation_keeps_device_and_commands() {
    let operation = Operation::new(0x12, sample());
    assert_eq!(operation.device(), 0x12);
    assert_eq!(operation.commands(), &sample());
    assert_eq!(operation.completed(), 0);
    assert!(!operation.is_finished());
}

#[test]
fn plain_write_takes_one_transfer() {
    let mut operation = Operation::new(0x45, sample());
    assert_eq!(
        operation.pending(),
        Transfer::Write { device: 0x45, register: 0x31, value: 0x01 }
    );
    operation.advance(Reply::Written);
    assert_eq!(operation.completed(), 1);
    assert_eq!(operation.pending(), Transfer::Read { device: 0x45, register: 0x30 });
}

#[test]
fn bit_commands_read_then_write_back() {
    let mut operation = Operation::new(0x45, sample());
    operation.advance(Reply::Written);
    assert_eq!(operation.pending(), Transfer::Read { device: 0x45, register: 0x30 });
    operation.advance(Reply::Read(0b101));
    assert_eq!(operation.completed(), 1);
    assert_eq!(
        operation.pending(),
        Transfer::Write { device: 0x45, register: 0x30, value: 0b111 }
    );
    operation.advance(Reply::Written);
    assert_eq!(operation.completed(), 2);
    assert_eq!(operation.pending(), Transfer::Read { device: 0x45, register: 0x30 });
    operation.advance(Reply::Read(0b111));
    assert_eq!(
        operation.pending(),
        Transfer::Write { device: 0x45, register: 0x30, value: 0b110 }
    );
    operation.advance(Reply::Written);
    assert_eq!(operation.completed(), 3);
    assert_eq!(operation.pending(), Transfer::Finished);
    assert!(operation.is_finished());
    assert!(!operation.has_failed());
}

#[test]
fn failure_ends_the_operation_where_it_stands() {
    let mut operation = Operation::new(0x45, sample());
    operation.advance(Reply::Written);
    operation.advance(Reply::Read(0b101));
    operation.advance(Reply::Failed);
    assert!(operation.has_failed());
    assert!(operation.is_finished());
    assert_eq!(operation.pending(), Transfer::Finished);
    assert_eq!(operation.completed(), 1);
    operation.advance(Reply::Written);
    assert_eq!(operation.completed(), 1);
    assert_eq!(operation.pending(), Transfer::Finished);
}

#[test]
fn failure_of_the_first_transfer_completes_nothing() {
    let mut operation = Operation::new(0x45, sample());
    operation.advance(Reply::Failed);
    assert!(operation.has_failed());
    assert_eq!(operation.completed(), 0);
    assert_eq!(operation.pending(), Transfer::Finished);
}

#[test]
fn reply_that_does_not_answer_the_transfer_is_ignored() {
    let mut operation = Operation::new(0x45, sample());
    operation.advance(Reply::Read(0xFF));
    assert_eq!(operation.completed(), 0);
    assert_eq!(
        operation.pending(),
        Transfer::Write { device: 0x45, register: 0x31, value: 0x01 }
    );
    operation.advance(Reply::Written);
    operation.advance(Reply::Written);
    assert_eq!(operation.completed(), 1);
    assert_eq!(operation.pending(), Transfer::Read { device: 0x45, register: 0x30 });
    assert!(!operation.has_failed());
}

#[test]
fn outgoing_bytes_start_with_the_register_address() {
    let write = Transfer::Write { device: 0x45, register: 0x34, value: 128 };
    let read = Transfer::Read { device: 0x45, register: 0x30 };
    assert_eq!(write.outgoing(), vec![0x34, 128]);
    assert_eq!(read.outgoing(), vec![0x30]);
    assert_eq!(Transfer::Finished.outgoing(), Vec::<u8>::new());
}
