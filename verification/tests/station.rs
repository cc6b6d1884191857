use token_recycle::error::ErrorCode;
use token_recycle::pubkey::Pubkey;
use token_recycle::station::{
    initialize_station, InitializeStation, RecyclingStation, StationAccount,
};

fn key(tag: u8) -> Pubkey {
    Pubkey::new_from_array([tag; 32])
}

fn empty_slot() -> InitializeStation {
    InitializeStation { station: StationAccount { key: key(7), data: None }, owner: key(1) }
}

#[test]
fn initialize_station_creates_the_station() {
    let mut ctx = empty_slot();
    let lat = 48.8566f64.to_bits();
    let lon = 2.3522f64.to_bits();
    let res = initialize_station(
        &mut ctx,
        "Pere Lachaise".to_string(),
        "Where dead coins rest".to_string(),
        lat,
        lon,
        1_700_000_000,
    );
    assert_eq!(res, Ok(key(7)));
    assert_eq!(ctx.owner, key(1));
    assert_eq!(ctx.station.key, key(7));
    assert_eq!(
        ctx.station.data,
        Some(RecyclingStation {
            owner: key(1),
            name: "Pere Lachaise".to_string(),
            description: "Where dead coins rest".to_string(),
            latitude: lat,
            longitude: lon,
            recycled_count: 0,
            is_active: true,
            created_at: 1_700_000_000,
        })
    );
    let station = ctx.station.data.unwrap();
    assert_eq!(f64::from_bits(station.latitude), 48.8566);
    assert_eq!(f64::from_bits(station.longitude), 2.3522);
}

#[test]
fn initialize_station_accepts_empty_texts_and_negative_time() {
    let mut ctx = empty_slot();
    let res = initialize_station(&mut ctx, String::new(), String::new(), 0, 0, -5);
    assert_eq!(res, Ok(key(7)));
    let station = ctx.station.data.unwrap();
    assert_eq!(station.name, "");
    assert_eq!(station.description, "");
    assert_eq!(station.created_at, -5);
    assert_eq!(station.recycled_count, 0);
    assert!(station.is_active);
}

#[test]
fn name_of_one_hundred_bytes_is_accepted() {
    let mut ctx = empty_slot();
    let res = initialize_station(&mut ctx, "n".repeat(100), "d".to_string(), 0, 0, 0);
    assert_eq!(res, Ok(key(7)));
    assert_eq!(ctx.station.data.unwrap().name.len(), 100);
}

#[test]
fn name_of_one_hundred_and_one_bytes_is_rejected() {
    let mut ctx = empty_slot();
    let res = initialize_station(&mut ctx, "n".repeat(101), "d".to_string(), 0, 0, 0);
    assert_eq!(res, Err(ErrorCode::InvalidName));
    assert_eq!(ctx, empty_slot());
}

#[test]
fn name_length_counts_bytes_not_characters() {
    // Each of these characters takes two bytes.
    let mut ctx = empty_slot();
    let res = initialize_station(&mut ctx, "\u{e9}".repeat(51), String::new(), 0, 0, 0);
    assert_eq!(res, Err(ErrorCode::InvalidName));
    assert_eq!(ctx, empty_slot());
    let res = initialize_station(&mut ctx, "\u{e9}".repeat(50), String::new(), 0, 0, 0);
    assert_eq!(res, Ok(key(7)));
}

#[test]
fn description_of_two_hundred_bytes_is_accepted() {
    let mut ctx = empty_slot();
    let res = initialize_station(&mut ctx, "n".to_string(), "d".repeat(200), 0, 0, 0);
    assert_eq!(res, Ok(key(7)));
    assert_eq!(ctx.station.data.unwrap().description.len(), 200);
}

#[test]
fn description_of_two_hundred_and_one_bytes_is_rejected() {
    let mut ctx = empty_slot();
    let res = initialize_station(&mut ctx, "n".to_string(), "d".repeat(201), 0, 0, 0);
    assert_eq!(res, Err(ErrorCode::InvalidDescription));
    assert_eq!(ctx, empty_slot());
}

#[test]
fn description_length_counts_bytes_not_characters() {
    // Each of these characters takes three bytes.
    let mut ctx = empty_slot();
    let res = initialize_station(&mut ctx, String::new(), "\u{20ac}".repeat(67), 0, 0, 0);
    assert_eq!(res, Err(ErrorCode::InvalidDescription));
    let res = initialize_station(&mut ctx, String::new(), "\u{20ac}".repeat(66), 0, 0, 0);
    assert_eq!(res, Ok(key(7)));
}

#[test]
fn second_station_in_the_same_slot_is_rejected() {
    let mut ctx = empty_slot();
    assert_eq!(
        initialize_station(&mut ctx, "first".to_string(), "one".to_string(), 1, 2, 3),
        Ok(key(7))
    );
    let before = ctx.clone();
    assert_eq!(
        initialize_station(&mut ctx, "second".to_string(), "two".to_string(), 4, 5, 6),
        Err(ErrorCode::AlreadyExists)
    );
    assert_eq!(ctx, before);
    assert_eq!(ctx.station.data.unwrap().name, "first");
}

#[test]
fn initialize_station_reports_the_first_failure() {
    let mut ctx = empty_slot();
    assert_eq!(
        initialize_station(&mut ctx, "n".repeat(101), "d".repeat(201), 0, 0, 0),
        Err(ErrorCode::InvalidName)
    );
    assert_eq!(initialize_station(&mut ctx, "n".to_string(), "d".to_string(), 0, 0, 0), Ok(key(7)));
    assert_eq!(
        initialize_station(&mut ctx, "n".repeat(101), "d".to_string(), 0, 0, 0),
        Err(ErrorCode::InvalidName)
    );
    assert_eq!(
        initialize_station(&mut ctx, "n".to_string(), "d".repeat(201), 0, 0, 0),
        Err(ErrorCode::InvalidDescription)
    );
}
