use checked_sum::CheckedAdd;
use checked_sum::CheckedSum;

#[test]
fn test_checked_sum_some() {
    let values: Vec<u64> = vec![];
    let maybe_sum = values.into_iter().checked_sum();
    assert_eq!(maybe_sum, Some(0));

    let values = vec![1u8, 2, 3, 4, 5];
    let maybe_sum = values.into_iter().checked_sum();
    assert_eq!(maybe_sum, Some(15));
}

#[test]
fn test_checked_sum_none() {
    {
        let values = vec![255u8, 1];
        let maybe_sum = values.into_iter().checked_sum();
        assert_eq!(maybe_sum, None);
    }
    {
        let values = vec![1u8; 256];
        let maybe_sum = values.into_iter().checked_sum();
        assert_eq!(maybe_sum, None);
    }
    {
        let values = vec![u8::MAX, u8::MAX, u8::MAX];
        let maybe_sum = values.into_iter().checked_sum();
        assert_eq!(maybe_sum, None);
    }
}

#[test]
fn empty_u8_is_zero() {
    let values: Vec<u8> = vec![];
    assert_eq!(values.into_iter().checked_sum(), Some(0u8));
}

#[test]
fn empty_signed_is_zero() {
    let values: Vec<i32> = vec![];
    assert_eq!(values.into_iter().checked_sum(), Some(0i32));
}

#[test]
fn single_max_is_not_overflow() {
    let values = vec![255u8];
    assert_eq!(values.into_iter().checked_sum(), Some(255u8));
}

#[test]
fn reaching_max_exactly_is_not_overflow() {
    let values = vec![200u8, 50, 5];
    assert_eq!(values.into_iter().checked_sum(), Some(255u8));
    let values = vec![200u8, 50, 6];
    assert_eq!(values.into_iter().checked_sum(), None);
}

#[test]
fn two_hundred_fifty_five_ones_fit() {
    let values = vec![1u8; 255];
    assert_eq!(values.into_iter().checked_sum(), Some(255u8));
}

#[test]
fn fitting_sum_is_exact() {
    let values = vec![1000u32, 2000, 3000, 4000];
    assert_eq!(values.into_iter().checked_sum(), Some(10000u32));
    let values = vec![u64::MAX - 10, 4, 6];
    assert_eq!(values.into_iter().checked_sum(), Some(u64::MAX));
}

#[test]
fn overflowing_sum_is_absent() {
    let values = vec![u16::MAX, 1];
    assert_eq!(values.into_iter().checked_sum(), None);
    let values = vec![usize::MAX / 2, usize::MAX / 2, 2];
    assert_eq!(values.into_iter().checked_sum(), None);
}

#[test]
fn order_does_not_change_the_outcome() {
    let forward = vec![5u8, 50, 200];
    let backward = vec![200u8, 50, 5];
    assert_eq!(forward.into_iter().checked_sum(), Some(255u8));
    assert_eq!(backward.into_iter().checked_sum(), Some(255u8));
    let forward = vec![1u8, 100, 155];
    let backward = vec![155u8, 100, 1];
    assert_eq!(forward.into_iter().checked_sum(), None);
    assert_eq!(backward.into_iter().checked_sum(), None);
}

#[test]
fn signed_underflow_is_absent() {
    let values = vec![i8::MIN, -1];
    assert_eq!(values.into_iter().checked_sum(), None);
    let values = vec![-100i16, -200, i16::MIN];
    assert_eq!(values.into_iter().checked_sum(), None);
}

#[test]
fn signed_mixed_sum_is_exact() {
    let values = vec![100i8, -100, 27];
    assert_eq!(values.into_iter().checked_sum(), Some(27i8));
    let values = vec![i64::MIN, i64::MAX];
    assert_eq!(values.into_iter().checked_sum(), Some(-1i64));
}

#[test]
fn overflowing_running_total_is_absent_even_if_total_fits() {
    let values = vec![127i8, 1, -1];
    assert_eq!(values.into_iter().checked_sum(), None);
    let values = vec![127i8, -1, 1];
    assert_eq!(values.into_iter().checked_sum(), Some(127i8));
}

#[test]
fn wide_types_sum() {
    let values = vec![u128::MAX - 1, 1];
    assert_eq!(values.into_iter().checked_sum(), Some(u128::MAX));
    let values = vec![i128::MIN, -1];
    assert_eq!(values.into_iter().checked_sum(), None);
    let values = vec![isize::MAX, isize::MIN, 1];
    assert_eq!(values.into_iter().checked_sum(), Some(0isize));
}

#[test]
fn checked_add_unsigned_widths() {
    assert_eq!(CheckedAdd::checked_add(&250u8, &5u8), Some(255u8));
    assert_eq!(CheckedAdd::checked_add(&250u8, &6u8), None);
    assert_eq!(CheckedAdd::checked_add(&u16::MAX, &0u16), Some(u16::MAX));
    assert_eq!(CheckedAdd::checked_add(&u16::MAX, &1u16), None);
    assert_eq!(CheckedAdd::checked_add(&7u32, &8u32), Some(15u32));
    assert_eq!(CheckedAdd::checked_add(&u32::MAX, &u32::MAX), None);
    assert_eq!(CheckedAdd::checked_add(&(u64::MAX - 1), &1u64), Some(u64::MAX));
    assert_eq!(CheckedAdd::checked_add(&u64::MAX, &1u64), None);
    assert_eq!(CheckedAdd::checked_add(&3u128, &4u128), Some(7u128));
    assert_eq!(CheckedAdd::checked_add(&u128::MAX, &1u128), None);
    assert_eq!(CheckedAdd::checked_add(&3usize, &4usize), Some(7usize));
    assert_eq!(CheckedAdd::checked_add(&usize::MAX, &1usize), None);
}

#[test]
fn checked_add_signed_widths() {
    assert_eq!(CheckedAdd::checked_add(&-100i8, &-28i8), Some(i8::MIN));
    assert_eq!(CheckedAdd::checked_add(&-100i8, &-29i8), None);
    assert_eq!(CheckedAdd::checked_add(&i16::MAX, &1i16), None);
    assert_eq!(CheckedAdd::checked_add(&-5i16, &5i16), Some(0i16));
    assert_eq!(CheckedAdd::checked_add(&i32::MIN, &i32::MAX), Some(-1i32));
    assert_eq!(CheckedAdd::checked_add(&i32::MIN, &-1i32), None);
    assert_eq!(CheckedAdd::checked_add(&i64::MAX, &1i64), None);
    assert_eq!(CheckedAdd::checked_add(&-9i64, &4i64), Some(-5i64));
    assert_eq!(CheckedAdd::checked_add(&i128::MIN, &-1i128), None);
    assert_eq!(CheckedAdd::checked_add(&i128::MAX, &i128::MIN), Some(-1i128));
    assert_eq!(CheckedAdd::checked_add(&isize::MAX, &1isize), None);
    assert_eq!(CheckedAdd::checked_add(&-2isize, &-3isize), Some(-5isize));
}

#[test]
fn zero_is_the_identity() {
    assert_eq!(<u8 as CheckedAdd>::zero(), 0u8);
    assert_eq!(<i64 as CheckedAdd>::zero(), 0i64);
    assert_eq!(CheckedAdd::checked_add(&<u32 as CheckedAdd>::zero(), &u32::MAX), Some(u32::MAX));
    assert_eq!(CheckedAdd::checked_add(&<i8 as CheckedAdd>::zero(), &i8::MIN), Some(i8::MIN));
}

#[test]
fn summing_other_iterators() {
    assert_eq!((1u32..=100).checked_sum(), Some(5050u32));
    assert_eq!((0u8..=22).checked_sum(), Some(253u8));
    assert_eq!((0u8..=23).checked_sum(), None);
}

#[test]
fn stops_at_first_overflow() {
    let mut seen: u32 = 0;
    let items = vec![200u8, 100, 1, 2, 3];
    let r = items
        .into_iter()
        .inspect(|_| seen += 1)
        .checked_sum();
    assert_eq!(r, None);
    assert_eq!(seen, 2);
}
