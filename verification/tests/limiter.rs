use ratelimit::Ratelimiter;

const MICROSECOND: u64 = 1_000;
const MILLISECOND: u64 = 1_000_000;

// test that the configured rate and calculated effective rate are close
#[test]
pub fn rate() {
    // amount + interval
    let rl = Ratelimiter::builder(4, 333).max_tokens(4).build(0).unwrap();

    let value: f64 = rl.refill_amount() as f64 * 1_000_000_000.0 / rl.refill_interval() as f64;
    let target: f64 = 12012012.0;
    assert!(value >= target * 0.999, "{value} >= {}", target * 0.999);
    assert!(value <= target * 1.001, "{value} <= {}", target * 1.001);
}

// quick test that a ratelimiter yields tokens at the desired rate
#[test]
pub fn wait() {
    let mut rl = Ratelimiter::builder(1, (10 * MICROSECOND) as u128).build(0).unwrap();

    let mut count = 0;

    let end: u64 = 10 * MILLISECOND;
    let mut now: u64 = 1;
    while now < end {
        if rl.try_wait(now).is_ok() {
            count += 1;
        }
        now += MICROSECOND;
    }

    assert!(count >= 600);
    assert!(count <= 1400);
}

// quick test that a ratelimiter yields n tokens at the desired rate
#[test]
pub fn wait_n() {
    let mut rl = Ratelimiter::builder(1, (10 * MICROSECOND) as u128)
        .max_tokens(3)
        .build(0)
        .unwrap();

    let mut count = 0;
    let hint = rl.try_wait_n(1, 3).unwrap_err();
    assert!((10 * MICROSECOND..30 * MICROSECOND).contains(&hint));

    let end: u64 = 10 * MILLISECOND;
    let mut now: u64 = 1;
    while now < end {
        if rl.try_wait_n(now, 3).is_ok() {
            count += 1;
        }
        now += MICROSECOND;
    }

    assert!(count >= 200);
    assert!(count <= 460);
}

// quick test that a ratelimiter accepts n returned tokens
#[test]
pub fn return_n() {
    let mut rl = Ratelimiter::builder(1, (10 * MICROSECOND) as u128)
        .max_tokens(3)
        .build(0)
        .unwrap();

    let hint = rl.try_wait_n(1, 3).unwrap_err();
    assert!((10 * MICROSECOND..30 * MICROSECOND).contains(&hint));
    rl.return_n(3);
    assert!(rl.try_wait_n(2, 3).is_ok());
}

// quick test that an idle ratelimiter doesn't build up excess capacity
#[test]
pub fn idle() {
    let mut rl = Ratelimiter::builder(1, MILLISECOND as u128)
        .initial_available(1)
        .build(0)
        .unwrap();

    let now: u64 = 10 * MILLISECOND;
    assert!(rl.next_refill() < now);

    assert!(rl.try_wait(now).is_ok());
    assert!(rl.try_wait(now).is_err());
    assert!(rl.dropped() >= 8);
    assert!(rl.next_refill() >= now);

    let later: u64 = now + 5 * MILLISECOND;
    assert!(rl.next_refill() < later);
}

// quick test that capacity acts as expected
#[test]
pub fn capacity() {
    let mut rl = Ratelimiter::builder(1, (10 * MILLISECOND) as u128)
        .max_tokens(10)
        .initial_available(0)
        .build(0)
        .unwrap();

    let now: u64 = 100 * MILLISECOND;
    assert!(rl.try_wait(now).is_ok());
    assert!(rl.try_wait(now).is_ok());
    assert!(rl.try_wait(now).is_ok());
    assert!(rl.try_wait(now).is_ok());
    assert!(rl.try_wait(now).is_ok());
    assert!(rl.try_wait(now).is_ok());
    assert!(rl.try_wait(now).is_ok());
    assert!(rl.try_wait(now).is_ok());
    assert!(rl.try_wait(now).is_ok());
    assert!(rl.try_wait(now).is_ok());
    assert!(rl.try_wait(now).is_err());
}
