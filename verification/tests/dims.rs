use tensorrt_rs::dims::{
    Dim, DimensionType, Dims, Dims2, Dims3, Dims4, DimsCHW, DimsHW, DimsNCHW, DimsShapeError,
    MAX_DIMS,
};

fn ordinals(roles: &[DimensionType]) -> Vec<i32> {
    roles.iter().map(|role| role.ordinal()).collect()
}

fn rank_of<D: Dim>(shape: &D) -> i32 {
    shape.nb_dims()
}

fn first_extent<D: Dim>(shape: &D) -> i32 {
    shape.d()[0]
}

#[test]
fn ordinals_follow_the_native_enumeration() {
    assert_eq!(DimensionType::Spacial.ordinal(), 0);
    assert_eq!(DimensionType::Channel.ordinal(), 1);
    assert_eq!(DimensionType::Index.ordinal(), 2);
    assert_eq!(DimensionType::Sequence.ordinal(), 3);
}

#[test]
fn from_ordinal_decodes_the_four_roles_only() {
    assert_eq!(DimensionType::from_ordinal(0), Some(DimensionType::Spacial));
    assert_eq!(DimensionType::from_ordinal(1), Some(DimensionType::Channel));
    assert_eq!(DimensionType::from_ordinal(2), Some(DimensionType::Index));
    assert_eq!(DimensionType::from_ordinal(3), Some(DimensionType::Sequence));
    assert_eq!(DimensionType::from_ordinal(4), None);
    assert_eq!(DimensionType::from_ordinal(-1), None);
    assert_eq!(DimensionType::from_ordinal(i32::MAX), None);
    assert_eq!(DimensionType::from_ordinal(i32::MIN), None);
}

#[test]
fn ordinal_round_trips() {
    for role in [
        DimensionType::Spacial,
        DimensionType::Channel,
        DimensionType::Index,
        DimensionType::Sequence,
    ] {
        assert_eq!(DimensionType::from_ordinal(role.ordinal()), Some(role));
    }
}

#[test]
fn nchw_has_rank_extents_and_roles() {
    let shape = DimsNCHW::new(1, 3, 224, 224);
    assert_eq!(shape.nb_dims(), 4);
    assert_eq!(shape.d()[0..4], [1, 3, 224, 224]);
    assert_eq!(
        shape.types()[0..4],
        [
            DimensionType::Index,
            DimensionType::Channel,
            DimensionType::Spacial,
            DimensionType::Spacial
        ]
    );
}

#[test]
fn dims3_keeps_extents_when_roles_are_set() {
    let mut shape = Dims3::new(2, 4, 8);
    shape.set_dimension_types(
        DimensionType::Index,
        DimensionType::Channel,
        DimensionType::Spacial,
    );
    assert_eq!(shape.nb_dims(), 3);
    assert_eq!(shape.d()[0..3], [2, 4, 8]);
    assert_eq!(
        shape.types()[0..3],
        [DimensionType::Index, DimensionType::Channel, DimensionType::Spacial]
    );
}

#[test]
fn rank_nine_is_refused() {
    let mut sizes = [1, 2, 3, 4, 5, 6, 7, 8];
    let mut roles = [DimensionType::Spacial; 8];
    let shape = Dims::new(9, &mut sizes, &mut roles);
    assert!(shape.is_err());
}

#[test]
fn negative_rank_is_refused_with_a_message() {
    let mut sizes = [0; 8];
    let mut roles = [DimensionType::Spacial; 8];
    match Dims::new(-1, &mut sizes, &mut roles) {
        Ok(_) => panic!("a negative rank was accepted"),
        Err(err) => assert_eq!(
            err.message(),
            "the number of dimensions must be between 0 and 8"
        ),
    }
    assert!(Dims::new(i32::MIN, &mut sizes, &mut roles).is_err());
    assert!(Dims::new(i32::MAX, &mut sizes, &mut roles).is_err());
}

#[test]
fn every_rank_up_to_the_maximum_is_accepted() {
    assert_eq!(MAX_DIMS, 8);
    for rank in 0..=8 {
        let mut sizes = [7, 6, 5, 4, 3, 2, 1, -1];
        let mut roles = [
            DimensionType::Sequence,
            DimensionType::Index,
            DimensionType::Channel,
            DimensionType::Spacial,
            DimensionType::Sequence,
            DimensionType::Index,
            DimensionType::Channel,
            DimensionType::Spacial,
        ];
        let shape = match Dims::new(rank, &mut sizes, &mut roles) {
            Ok(shape) => shape,
            Err(err) => panic!("rank {} was refused: {}", rank, err.message()),
        };
        assert_eq!(shape.nb_dims(), rank);
        assert_eq!(shape.d(), [7, 6, 5, 4, 3, 2, 1, -1]);
        assert_eq!(ordinals(&shape.types()), vec![3, 2, 1, 0, 3, 2, 1, 0]);
        assert_eq!(sizes, [7, 6, 5, 4, 3, 2, 1, -1]);
        assert_eq!(ordinals(&roles), vec![3, 2, 1, 0, 3, 2, 1, 0]);
    }
}

#[test]
fn dims2_round_trips_its_extents() {
    let shape = Dims2::new(5, -1);
    assert_eq!(shape.nb_dims(), 2);
    assert_eq!(shape.d(), [5, -1, 0, 0, 0, 0, 0, 0]);
    assert_eq!(shape.types(), [DimensionType::Spacial; 8]);
}

#[test]
fn dims3_round_trips_its_extents() {
    let shape = Dims3::new(i32::MAX, i32::MIN, 0);
    assert_eq!(shape.nb_dims(), 3);
    assert_eq!(shape.d(), [i32::MAX, i32::MIN, 0, 0, 0, 0, 0, 0]);
    assert_eq!(shape.types(), [DimensionType::Spacial; 8]);
}

#[test]
fn dims4_round_trips_its_extents() {
    let shape = Dims4::new(1, 2, 3, 4);
    assert_eq!(shape.nb_dims(), 4);
    assert_eq!(shape.d(), [1, 2, 3, 4, 0, 0, 0, 0]);
    assert_eq!(shape.types(), [DimensionType::Spacial; 8]);
}

#[test]
fn dims2_set_roles_touches_two_slots() {
    let mut shape = Dims2::new(10, 20);
    shape.set_dimension_types(DimensionType::Sequence, DimensionType::Channel);
    assert_eq!(shape.nb_dims(), 2);
    assert_eq!(shape.d(), [10, 20, 0, 0, 0, 0, 0, 0]);
    assert_eq!(ordinals(&shape.types()), vec![3, 1, 0, 0, 0, 0, 0, 0]);
}

#[test]
fn dims4_set_roles_touches_four_slots() {
    let mut shape = Dims4::new(1, 2, 3, 4);
    shape.set_dimension_types(
        DimensionType::Index,
        DimensionType::Sequence,
        DimensionType::Channel,
        DimensionType::Channel,
    );
    assert_eq!(shape.nb_dims(), 4);
    assert_eq!(shape.d(), [1, 2, 3, 4, 0, 0, 0, 0]);
    assert_eq!(ordinals(&shape.types()), vec![2, 3, 1, 1, 0, 0, 0, 0]);
}

#[test]
fn setting_the_same_roles_twice_changes_nothing() {
    let mut once = Dims3::new(2, 4, 8);
    once.set_dimension_types(
        DimensionType::Channel,
        DimensionType::Index,
        DimensionType::Sequence,
    );
    let mut twice = Dims3::new(2, 4, 8);
    for _ in 0..2 {
        twice.set_dimension_types(
            DimensionType::Channel,
            DimensionType::Index,
            DimensionType::Sequence,
        );
    }
    assert_eq!(once.nb_dims(), twice.nb_dims());
    assert_eq!(once.d(), twice.d());
    assert_eq!(once.types(), twice.types());
    assert_eq!(ordinals(&twice.types()), vec![1, 2, 3, 0, 0, 0, 0, 0]);
}

#[test]
fn later_roles_replace_earlier_ones() {
    let mut shape = Dims2::new(1, 1);
    shape.set_dimension_types(DimensionType::Index, DimensionType::Index);
    shape.set_dimension_types(DimensionType::Channel, DimensionType::Spacial);
    assert_eq!(ordinals(&shape.types()), vec![1, 0, 0, 0, 0, 0, 0, 0]);
    assert_eq!(shape.nb_dims(), 2);
}

#[test]
fn hw_is_spatial_on_both_axes() {
    let shape = DimsHW::new(480, 640);
    assert_eq!(shape.nb_dims(), 2);
    assert_eq!(shape.d(), [480, 640, 0, 0, 0, 0, 0, 0]);
    assert_eq!(
        shape.types()[0..2],
        [DimensionType::Spacial, DimensionType::Spacial]
    );
}

#[test]
fn chw_has_channel_then_spatial_roles() {
    let shape = DimsCHW::new(3, 32, 16);
    assert_eq!(shape.nb_dims(), 3);
    assert_eq!(shape.d(), [3, 32, 16, 0, 0, 0, 0, 0]);
    assert_eq!(ordinals(&shape.types()), vec![1, 0, 0, 0, 0, 0, 0, 0]);
}

#[test]
fn nchw_fills_unused_slots_with_zero() {
    let shape = DimsNCHW::new(8, 3, 2, 1);
    assert_eq!(shape.d(), [8, 3, 2, 1, 0, 0, 0, 0]);
    assert_eq!(ordinals(&shape.types()), vec![2, 1, 0, 0, 0, 0, 0, 0]);
}

#[test]
fn hw_can_be_made_and_dropped_many_times() {
    let mut made = 0;
    for _ in 0..10_000 {
        let shape = DimsHW::new(64, 64);
        assert_eq!(shape.nb_dims(), 2);
        assert_eq!(shape.d()[0..2], [64, 64]);
        drop(shape);
        made += 1;
    }
    assert_eq!(made, 10_000);
}

#[test]
fn shapes_are_read_through_the_shared_interface() {
    assert_eq!(rank_of(&Dims2::new(9, 9)), 2);
    assert_eq!(rank_of(&DimsHW::new(9, 9)), 2);
    assert_eq!(rank_of(&Dims3::new(9, 9, 9)), 3);
    assert_eq!(rank_of(&DimsCHW::new(9, 9, 9)), 3);
    assert_eq!(rank_of(&Dims4::new(9, 9, 9, 9)), 4);
    assert_eq!(rank_of(&DimsNCHW::new(9, 9, 9, 9)), 4);
    assert_eq!(first_extent(&DimsNCHW::new(11, 9, 9, 9)), 11);
}

#[test]
fn shape_error_carries_its_message() {
    let err = DimsShapeError::new("rank out of range");
    assert_eq!(err.message(), "rank out of range");
    assert_eq!(err.clone().message(), "rank out of range");
    assert!(format!("{:?}", err).contains("rank out of range"));
    assert_eq!(DimsShapeError::new("").message(), "");
}
