use serenity_sharder::{effective_delay, SharderOptions, ShardingStrategy};

fn decorator(foo: impl ToString) -> impl ToString {
    foo
}

#[test]
fn test_fields() {
    let mut options = SharderOptions::new("aaa");
    options.delay(7).strategy(ShardingStrategy::Autoshard);

    assert_eq!(options.delay, 7);
    assert_eq!(options.strategy, ShardingStrategy::Autoshard);
    assert_eq!(options.token, "aaa");
}

#[test]
fn test_generics() {
    let mut options = SharderOptions::new(decorator("a"));

    assert_eq!(options.token, "a");

    options.token(decorator("b"));
    assert_eq!(options.token, "b");
}

#[test]
fn test_minimum_delay() {
    let mut options = SharderOptions::new("0");
    options.delay(6);
    assert_eq!(options.delay, 6);

    // Assert that 4 becomes 5
    options.delay(4);
    assert_eq!(options.delay, 5);
}

#[test]
fn new_options_have_defaults() {
    let options = SharderOptions::new(String::from("tok"));
    assert_eq!(options.delay, 6);
    assert_eq!(options.strategy, ShardingStrategy::Autoshard);
    assert_eq!(options.token, "tok");
}

#[test]
fn delay_below_minimum_is_raised() {
    assert_eq!(effective_delay(3), 5);
    assert_eq!(effective_delay(0), 5);
    assert_eq!(effective_delay(5), 5);
    assert_eq!(effective_delay(7), 7);
    assert_eq!(effective_delay(u64::MAX), u64::MAX);

    let mut options = SharderOptions::new("x");
    options.delay(3);
    assert_eq!(options.delay, 5);
    options.delay(7);
    assert_eq!(options.delay, 7);
}

#[test]
fn setters_chain_and_keep_other_fields() {
    let mut options = SharderOptions::new("first");
    options
        .strategy(ShardingStrategy::Range(0, 19, 40))
        .delay(10)
        .token("second");
    assert_eq!(options.delay, 10);
    assert_eq!(options.strategy, ShardingStrategy::Range(0, 19, 40));
    assert_eq!(options.token, "second");

    options.set_token(String::from("third"));
    assert_eq!(options.token, "third");
    let other = SharderOptions::with_token(String::from("fourth"));
    assert_eq!(other.token, "fourth");
}
