use gacha_system::{rarity_range, select_tier, GachaError, GachaItem, GachaSystem, ItemPool, PityState, Rarity, WeightRange};

fn rarities() -> Vec<(Rarity, u64)> {
    vec![(Rarity::SSR, 5), (Rarity::N, 35), (Rarity::R, 40), (Rarity::SR, 20)]
}

fn gacha_items(rarity: Rarity, num: u8) -> Vec<GachaItem> {
    let mut res = vec![];
    for i in 0..num {
        let name = format!("{rarity:?}-{i}");
        res.push(GachaItem { name, rarity });
    }
    res
}

fn data() -> ItemPool {
    let mut pool = ItemPool::new();
    pool.insert(Rarity::SSR, gacha_items(Rarity::SSR, 2));
    pool.insert(Rarity::SR, gacha_items(Rarity::SR, 3));
    pool.insert(Rarity::R, gacha_items(Rarity::R, 4));
    pool.insert(Rarity::N, gacha_items(Rarity::N, 3));
    pool
}

fn rarities_of(items: &[GachaItem]) -> Vec<Rarity> {
    items.iter().map(|it| it.rarity).collect()
}

#[test]
fn ranges() {
    let actual: Vec<(u64, u64)> = rarity_range(&rarities()).iter().map(|(_, rg)| (rg.start, rg.end)).collect();
    let expected = vec![(0, 5), (5, 40), (40, 80), (80, 100)];
    assert_eq!(actual, expected);
}

#[test]
fn ranges_keep_declared_tiers() {
    let tiers: Vec<Rarity> = rarity_range(&rarities()).iter().map(|(t, _)| *t).collect();
    assert_eq!(tiers, vec![Rarity::SSR, Rarity::N, Rarity::R, Rarity::SR]);
}

#[test]
fn ranges_zero_weight_is_empty_interval() {
    let r = rarity_range(&vec![(Rarity::SSR, 0), (Rarity::SR, 7), (Rarity::R, 0)]);
    assert_eq!(r[0].1, WeightRange { start: 0, end: 0 });
    assert_eq!(r[1].1, WeightRange { start: 0, end: 7 });
    assert_eq!(r[2].1, WeightRange { start: 7, end: 7 });
}

#[test]
fn select_tier_boundaries() {
    let r = rarity_range(&rarities());
    assert_eq!(select_tier(&r, 0), Some(Rarity::SSR));
    assert_eq!(select_tier(&r, 4), Some(Rarity::SSR));
    assert_eq!(select_tier(&r, 5), Some(Rarity::N));
    assert_eq!(select_tier(&r, 39), Some(Rarity::N));
    assert_eq!(select_tier(&r, 40), Some(Rarity::R));
    assert_eq!(select_tier(&r, 80), Some(Rarity::SR));
    assert_eq!(select_tier(&r, 99), Some(Rarity::SR));
    assert_eq!(select_tier(&r, 100), None);
}

#[test]
fn tier_for_roll_skips_zero_weight() {
    let g = GachaSystem::with_config(10, 0, 0, vec![(Rarity::SSR, 0), (Rarity::SR, 10)], data());
    assert_eq!(g.tier_for_roll(0), Rarity::SR);
    assert_eq!(g.tier_for_roll(9), Rarity::SR);
}

#[test]
fn tier_for_roll_default_table() {
    let g = GachaSystem::new();
    assert_eq!(g.tier_for_roll(0), Rarity::SSR);
    assert_eq!(g.tier_for_roll(5), Rarity::SR);
    assert_eq!(g.tier_for_roll(24), Rarity::SR);
    assert_eq!(g.tier_for_roll(25), Rarity::R);
    assert_eq!(g.tier_for_roll(64), Rarity::R);
    assert_eq!(g.tier_for_roll(65), Rarity::N);
    assert_eq!(g.tier_for_roll(99), Rarity::N);
}

#[test]
fn new_has_defaults() {
    let g = GachaSystem::new();
    assert_eq!(g.chances(), 100);
    assert_eq!(g.pity(), PityState { soft_streak: 0, hard_streak: 0, soft_threshold: 10, hard_threshold: 50 });
    assert_eq!(g.rarities(), &vec![(Rarity::SSR, 5), (Rarity::SR, 20), (Rarity::R, 40), (Rarity::N, 35)]);
    assert!(g.data().get(Rarity::SSR).is_none());
}

#[test]
fn pull() {
    let mut gacha = GachaSystem::with_config(11, 0, 0, rarities(), data());
    let res = gacha.pull(1).unwrap();
    println!("1 pull: {:?}", res);
    assert_eq!(res.len(), 1);

    let ten_poll_res = gacha.pull(10).unwrap();
    println!("10 pull: {:?}", ten_poll_res);
    assert_eq!(ten_poll_res.len(), 10);
}

#[test]
fn saturating_pull() {
    let mut gacha = GachaSystem::with_config(8, 0, 0, rarities(), data());
    let res = gacha.pull(1000).unwrap();
    println!("all pull: {:?}", res);
    assert_eq!(res.len(), 8);
    assert_eq!(gacha.chances(), 0);
}

#[test]
fn pull_on_empty_budget_is_empty() {
    let mut gacha = GachaSystem::with_config(0, 0, 0, rarities(), data());
    assert_eq!(gacha.pull(5).unwrap().len(), 0);
    assert_eq!(gacha.chances(), 0);
}

#[test]
fn pull_zero_changes_nothing() {
    let mut gacha = GachaSystem::with_config(5, 3, 7, rarities(), data());
    assert_eq!(gacha.pull(0).unwrap().len(), 0);
    assert_eq!(gacha.chances(), 5);
    assert_eq!(gacha.pity(), PityState::new(3, 7));
}

#[test]
fn budget_drops_by_items_drawn() {
    let mut gacha = GachaSystem::with_config(30, 0, 0, rarities(), data());
    let a = gacha.pull(7).unwrap();
    assert_eq!(gacha.chances(), 30 - a.len() as u32);
    let b = gacha.pull(40).unwrap();
    assert_eq!(b.len(), 23);
    assert_eq!(gacha.chances(), 0);
}

#[test]
fn drawn_items_come_from_their_pool() {
    let mut gacha = GachaSystem::with_config(200, 0, 0, rarities(), data());
    let pool = data();
    for item in gacha.pull(200).unwrap() {
        assert!(pool.get(item.rarity).unwrap().iter().any(|i| i.name == item.name));
    }
}

#[test]
fn soft_pity_no_ssr() {
    let mut gacha = GachaSystem::with_config(
        10,
        1,
        80,
        vec![(Rarity::SSR, 0), (Rarity::SR, 1), (Rarity::R, 500), (Rarity::N, 500)],
        data(),
    );

    let has_sr = gacha.pull(1).unwrap();
    assert_eq!(has_sr.get(0).map(|gd| gd.rarity), Some(Rarity::SR));
}

// A soft pity forces SR outright; the weight table is not consulted.
#[test]
fn soft_pity_with_ssr() {
    let mut gacha = GachaSystem::with_config(
        10,
        1,
        80,
        vec![(Rarity::SSR, 1), (Rarity::SR, 0), (Rarity::R, 500), (Rarity::N, 500)],
        data(),
    );

    let has_sr = gacha.pull(1).unwrap();
    assert_eq!(has_sr.get(0).map(|gd| gd.rarity), Some(Rarity::SR));
}

#[test]
fn hard_pity() {
    let mut gacha = GachaSystem::with_config(
        10,
        10,
        1,
        vec![(Rarity::SSR, 10), (Rarity::SR, 30), (Rarity::R, 30), (Rarity::N, 30)],
        data(),
    );

    let has_sr = gacha.pull(1).unwrap();
    assert_eq!(has_sr.get(0).map(|gd| gd.rarity), Some(Rarity::SSR));
}

#[test]
fn hard_pity_with_zero_ssr_weight() {
    let mut gacha = GachaSystem::with_config(
        10,
        10,
        1,
        vec![(Rarity::SSR, 0), (Rarity::SR, 30), (Rarity::R, 30), (Rarity::N, 30)],
        data(),
    );
    let res = gacha.pull(1).unwrap();
    assert_eq!(rarities_of(&res), vec![Rarity::SSR]);
    assert_eq!(gacha.pity().hard_streak, 0);
}

#[test]
fn hard_pity_wins_over_soft_pity() {
    let mut gacha = GachaSystem::with_config(3, 1, 1, rarities(), data());
    assert_eq!(rarities_of(&gacha.pull(1).unwrap()), vec![Rarity::SSR]);
}

#[test]
fn combined_pity_scenario() {
    let mut gacha = GachaSystem::with_config(
        100,
        10,
        80,
        vec![(Rarity::SSR, 0), (Rarity::SR, 0), (Rarity::R, 50), (Rarity::N, 50)],
        data(),
    );
    let first = gacha.pull(9).unwrap();
    assert!(first.iter().all(|i| i.rarity == Rarity::R || i.rarity == Rarity::N));
    assert_eq!(rarities_of(&gacha.pull(1).unwrap()), vec![Rarity::SR]);
    let middle = gacha.pull(69).unwrap();
    assert_eq!(middle.len(), 69);
    for (k, item) in middle.iter().enumerate() {
        // draw number k + 11 overall
        let draw = k + 11;
        if draw % 10 == 0 {
            assert_eq!(item.rarity, Rarity::SR);
        } else {
            assert!(item.rarity == Rarity::R || item.rarity == Rarity::N);
        }
    }
    assert_eq!(rarities_of(&gacha.pull(1).unwrap()), vec![Rarity::SSR]);
    assert_eq!(gacha.chances(), 20);
}

#[test]
fn streaks_follow_reset_law() {
    let mut p = PityState::new(100, 100);
    p.record(Rarity::N);
    p.record(Rarity::R);
    assert_eq!((p.soft_streak, p.hard_streak), (2, 2));
    p.record(Rarity::SR);
    assert_eq!((p.soft_streak, p.hard_streak), (0, 3));
    p.record(Rarity::R);
    assert_eq!((p.soft_streak, p.hard_streak), (1, 4));
    p.record(Rarity::SSR);
    assert_eq!((p.soft_streak, p.hard_streak), (0, 0));
    assert_eq!((p.soft_threshold, p.hard_threshold), (100, 100));
}

#[test]
fn pity_tier_query() {
    let p = PityState { soft_streak: 4, hard_streak: 8, soft_threshold: 5, hard_threshold: 10 };
    assert_eq!(p.pity_tier(), Some(Rarity::SR));
    let p = PityState { soft_streak: 4, hard_streak: 9, soft_threshold: 5, hard_threshold: 10 };
    assert_eq!(p.pity_tier(), Some(Rarity::SSR));
    let p = PityState { soft_streak: 3, hard_streak: 8, soft_threshold: 5, hard_threshold: 10 };
    assert_eq!(p.pity_tier(), None);
    assert_eq!(PityState::new(0, 0).pity_tier(), None);
    assert_eq!(PityState::new(1, 0).pity_tier(), Some(Rarity::SR));
}

#[test]
fn streaks_after_pulls() {
    let mut gacha = GachaSystem::with_config(
        10,
        0,
        0,
        vec![(Rarity::SSR, 0), (Rarity::SR, 0), (Rarity::R, 1), (Rarity::N, 1)],
        data(),
    );
    gacha.pull(4).unwrap();
    assert_eq!((gacha.pity().soft_streak, gacha.pity().hard_streak), (4, 4));
}

#[test]
fn missing_tier_fails() {
    let mut pool = data();
    let mut only_n = ItemPool::new();
    only_n.insert(Rarity::N, pool.get(Rarity::N).unwrap().clone());
    pool = only_n;
    let mut gacha = GachaSystem::with_config(5, 1, 80, rarities(), pool);
    assert_eq!(gacha.pull(3).err(), Some(GachaError::InvalidRarity(Rarity::SR)));
    assert_eq!(gacha.chances(), 5);
    assert_eq!(gacha.pity(), PityState::new(1, 80));
}

#[test]
fn empty_tier_fails() {
    let mut pool = data();
    pool.insert(Rarity::SSR, vec![]);
    let mut gacha = GachaSystem::with_config(5, 0, 1, rarities(), pool);
    assert_eq!(gacha.pull(2).err(), Some(GachaError::RarityWithNoData(Rarity::SSR)));
    assert_eq!(gacha.chances(), 5);
}

#[test]
fn failure_keeps_earlier_draws_counted() {
    let mut pool = data();
    pool.insert(Rarity::SR, vec![]);
    let mut gacha = GachaSystem::with_config(
        10,
        3,
        0,
        vec![(Rarity::SSR, 0), (Rarity::SR, 0), (Rarity::R, 1)],
        pool,
    );
    assert_eq!(gacha.pull(10).err(), Some(GachaError::RarityWithNoData(Rarity::SR)));
    assert_eq!(gacha.chances(), 8);
    assert_eq!((gacha.pity().soft_streak, gacha.pity().hard_streak), (2, 2));
}

#[test]
fn setters_replace_configuration() {
    let mut g = GachaSystem::new();
    g.set_data(data());
    g.set_rarities(vec![(Rarity::N, 1)]);
    g.set_thresholds(0, 0);
    g.set_chances(3);
    let res = g.pull(5).unwrap();
    assert_eq!(rarities_of(&res), vec![Rarity::N, Rarity::N, Rarity::N]);
    assert_eq!(g.chances(), 0);
}

#[test]
fn item_clone_keeps_fields() {
    let a = GachaItem::new("star".to_string(), Rarity::SSR);
    let b = a.clone();
    assert_eq!(b.name, "star");
    assert_eq!(b.rarity, Rarity::SSR);
}

#[test]
fn pool_insert_replaces_entry() {
    let mut pool = ItemPool::new();
    pool.insert(Rarity::R, gacha_items(Rarity::R, 2));
    pool.insert(Rarity::R, gacha_items(Rarity::R, 1));
    assert_eq!(pool.get(Rarity::R).unwrap().len(), 1);
    assert!(pool.get(Rarity::SR).is_none());
}

#[test]
fn error_messages() {
    assert_eq!(
        GachaError::InvalidRarity(Rarity::SR).message(),
        "\"SR\" is not a valid rarity in gacha pool"
    );
    assert_eq!(
        GachaError::RarityWithNoData(Rarity::SSR).message(),
        "gacha pool for rarity \"SSR\" has no data"
    );
    assert_eq!(Rarity::N.label(), "N");
}
