use registrar::source::{BlockDescriptor, BlockSource, Fetch, SourceStrategy, POLL_INTERVAL_MS};

fn block(sequence_number: u64) -> BlockDescriptor {
    BlockDescriptor { sequence_number, identifier: [7u8; 32] }
}

#[test]
fn polling_cadence_is_half_a_second() {
    assert_eq!(POLL_INTERVAL_MS, 500);
}

#[test]
fn new_source_has_yielded_nothing() {
    let source = BlockSource::new(SourceStrategy::Polling);
    assert_eq!(source.strategy(), SourceStrategy::Polling);
    assert_eq!(source.last_yielded(), None);
}

#[test]
fn polling_suppresses_repeated_heads() {
    let mut source = BlockSource::new(SourceStrategy::Polling);
    assert_eq!(source.accept(Fetch::Block(block(50))), Some(block(50)));
    assert_eq!(source.accept(Fetch::Block(block(50))), None);
    assert_eq!(source.accept(Fetch::Block(block(50))), None);
    assert_eq!(source.accept(Fetch::Block(block(51))), Some(block(51)));
    assert_eq!(source.last_yielded(), Some(51));
}

#[test]
fn polling_suppresses_older_heads() {
    let mut source = BlockSource::new(SourceStrategy::Polling);
    assert_eq!(source.accept(Fetch::Block(block(10))), Some(block(10)));
    assert_eq!(source.accept(Fetch::Block(block(9))), None);
    assert_eq!(source.last_yielded(), Some(10));
    assert_eq!(source.accept(Fetch::Block(block(11))), Some(block(11)));
}

#[test]
fn polling_yields_block_zero_first() {
    let mut source = BlockSource::new(SourceStrategy::Polling);
    assert_eq!(source.accept(Fetch::Block(block(0))), Some(block(0)));
    assert_eq!(source.accept(Fetch::Block(block(0))), None);
    assert_eq!(source.last_yielded(), Some(0));
}

#[test]
fn transient_errors_are_swallowed() {
    let mut source = BlockSource::new(SourceStrategy::Polling);
    assert_eq!(source.accept(Fetch::TransientError), None);
    assert_eq!(source.last_yielded(), None);
    assert_eq!(source.accept(Fetch::Block(block(5))), Some(block(5)));
    assert_eq!(source.accept(Fetch::TransientError), None);
    assert_eq!(source.last_yielded(), Some(5));
    assert_eq!(source.accept(Fetch::Block(block(6))), Some(block(6)));
}

#[test]
fn subscription_passes_every_block_on() {
    let mut source = BlockSource::new(SourceStrategy::PushSubscription);
    assert_eq!(source.strategy(), SourceStrategy::PushSubscription);
    assert_eq!(source.accept(Fetch::Block(block(5))), Some(block(5)));
    assert_eq!(source.accept(Fetch::Block(block(6))), Some(block(6)));
    assert_eq!(source.accept(Fetch::Block(block(6))), Some(block(6)));
    assert_eq!(source.accept(Fetch::TransientError), None);
    assert_eq!(source.last_yielded(), Some(6));
}

#[test]
fn yielded_block_keeps_its_identifier() {
    let mut source = BlockSource::new(SourceStrategy::Polling);
    let given = BlockDescriptor { sequence_number: 3, identifier: [9u8; 32] };
    let passed = source.accept(Fetch::Block(given)).unwrap();
    assert_eq!(passed.identifier, [9u8; 32]);
    assert_eq!(passed.sequence_number, 3);
}

#[test]
fn only_a_polling_source_pauses() {
    assert_eq!(BlockSource::new(SourceStrategy::Polling).pause_ms(), 500);
    assert_eq!(BlockSource::new(SourceStrategy::PushSubscription).pause_ms(), 0);
}
