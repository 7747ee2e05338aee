use claans_api::bak::claan::Claan as FixedClaan;
use claans_api::database::schema::sql_types;
use claans_api::models::dice::Dice;
use claans_api::models::tasktype::Tasktype;

#[test]
fn dice_encode_to_labels() {
    assert_eq!(Dice::D4.to_sql(), b"d4".to_vec());
    assert_eq!(Dice::D6.to_sql(), b"d6".to_vec());
    assert_eq!(Dice::D8.to_sql(), b"d8".to_vec());
    assert_eq!(Dice::D10.to_sql(), b"d10".to_vec());
    assert_eq!(Dice::D12.to_sql(), b"d12".to_vec());
}

#[test]
fn dice_round_trip() {
    for d in [Dice::D4, Dice::D6, Dice::D8, Dice::D10, Dice::D12] {
        assert_eq!(Dice::from_sql(&d.to_sql()), Ok(d));
    }
}

#[test]
fn dice_refuses_unknown_bytes() {
    assert_eq!(Dice::from_sql(b"d20"), Err("Unrecognized enum variant".to_string()));
    assert_eq!(Dice::from_sql(b""), Err("Unrecognized enum variant".to_string()));
    assert_eq!(Dice::from_sql(b"D4"), Err("Unrecognized enum variant".to_string()));
}

#[test]
fn tasktype_encodes_to_labels() {
    assert_eq!(Tasktype::Quest.to_sql(), b"quest".to_vec());
    assert_eq!(Tasktype::Activity.to_sql(), b"activity".to_vec());
}

#[test]
fn tasktype_decodes_quest_and_activty() {
    assert_eq!(Tasktype::from_sql(b"quest"), Ok(Tasktype::Quest));
    assert_eq!(Tasktype::from_sql(b"activty"), Ok(Tasktype::Activity));
}

#[test]
fn tasktype_refuses_its_own_activity_encoding() {
    let encoded = Tasktype::Activity.to_sql();
    assert_eq!(Tasktype::from_sql(&encoded), Err("Unrecognized enum variant".to_string()));
    assert_eq!(Tasktype::from_sql(&Tasktype::Quest.to_sql()), Ok(Tasktype::Quest));
}

#[test]
fn fixed_claans_round_trip() {
    for c in [
        FixedClaan::EarthStriders,
        FixedClaan::FireDancers,
        FixedClaan::ThunderWalkers,
        FixedClaan::WaveRiders,
    ] {
        assert_eq!(FixedClaan::from_sql(&c.to_sql()), Ok(c));
    }
    assert_eq!(FixedClaan::EarthStriders.to_sql(), b"EARTH_STRIDERS".to_vec());
    assert_eq!(FixedClaan::WaveRiders.to_sql(), b"WAVE_RIDERS".to_vec());
}

#[test]
fn fixed_claans_refuse_unknown_bytes() {
    assert_eq!(
        FixedClaan::from_sql(b"earth_striders"),
        Err("Unrecognized enum variant for Claan".to_string())
    );
}

#[test]
fn sql_type_names() {
    assert_eq!(sql_types::Dice::postgres_type_name(), "dice");
    assert_eq!(sql_types::Tasktype::postgres_type_name(), "tasktype");
}
