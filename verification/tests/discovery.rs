use asic_rs::discovery::{Discovery, DiscoveryAction, DiscoveryEvent, DiscoveryPhase, Identified};

fn stock(i: usize) -> DiscoveryEvent {
    DiscoveryEvent::TaskFinished(Some(Identified { firmware: i, is_stock: true }))
}

fn custom(i: usize) -> DiscoveryEvent {
    DiscoveryEvent::TaskFinished(Some(Identified { firmware: i, is_stock: false }))
}

#[test]
fn no_commands_finishes_at_once() {
    let (d, a) = Discovery::start(0);
    assert_eq!(d.phase, DiscoveryPhase::Done);
    assert_eq!(a, DiscoveryAction::Finish(None));
}

#[test]
fn non_stock_wins_immediately() {
    let (d, _) = Discovery::start(3);
    let (d, a) = d.step(DiscoveryEvent::TaskFinished(None));
    assert_eq!(a, DiscoveryAction::Wait);
    let (d, a) = d.step(custom(4));
    assert_eq!(a, DiscoveryAction::Finish(Some(4)));
    assert_eq!(d.phase, DiscoveryPhase::Done);
}

#[test]
fn stock_waits_for_an_upgrade() {
    let (d, _) = Discovery::start(3);
    let (d, a) = d.step(stock(0));
    assert_eq!(a, DiscoveryAction::OpenUpgradeWindow);
    assert_eq!(d.phase, DiscoveryPhase::AwaitingUpgrade);
    let (d, a) = d.step(custom(1));
    assert_eq!(a, DiscoveryAction::Finish(Some(1)));
    let (_, a) = d.step(custom(2));
    assert_eq!(a, DiscoveryAction::Finish(Some(1)));
}

#[test]
fn stock_kept_when_window_closes() {
    let (d, _) = Discovery::start(3);
    let (d, _) = d.step(stock(0));
    let (d, a) = d.step(stock(5));
    assert_eq!(a, DiscoveryAction::Wait);
    let (_, a) = d.step(DiscoveryEvent::UpgradeWindowElapsed);
    assert_eq!(a, DiscoveryAction::Finish(Some(0)));
}

#[test]
fn stock_kept_when_all_commands_answer() {
    let (d, _) = Discovery::start(2);
    let (d, _) = d.step(stock(0));
    let (_, a) = d.step(DiscoveryEvent::TaskFinished(None));
    assert_eq!(a, DiscoveryAction::Finish(Some(0)));
}

#[test]
fn last_stock_answer_finishes() {
    let (d, _) = Discovery::start(1);
    let (_, a) = d.step(stock(2));
    assert_eq!(a, DiscoveryAction::Finish(Some(2)));
}

#[test]
fn timeout_finishes_with_nothing() {
    let (d, _) = Discovery::start(2);
    let (d, a) = d.step(DiscoveryEvent::UpgradeWindowElapsed);
    assert_eq!(a, DiscoveryAction::Wait);
    let (_, a) = d.step(DiscoveryEvent::IdentificationTimeout);
    assert_eq!(a, DiscoveryAction::Finish(None));
}

#[test]
fn nothing_identified() {
    let (d, _) = Discovery::start(2);
    let (d, _) = d.step(DiscoveryEvent::TaskFinished(None));
    let (_, a) = d.step(DiscoveryEvent::TaskFinished(None));
    assert_eq!(a, DiscoveryAction::Finish(None));
}
