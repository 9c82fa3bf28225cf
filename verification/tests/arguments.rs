//! Arguments read from an instruction's data.
use areal_contracts::args::ArgReader;
use areal_contracts::error::ProgramError;

fn refused<T>() -> Result<T, ProgramError> {
    Err(ProgramError::InvalidInstructionData)
}

#[test]
fn arguments_follow_one_another() {
    let mut data = vec![9u8; 8];
    data.push(7);
    data.push(1);
    data.extend_from_slice(&513u16.to_le_bytes());
    data.extend_from_slice(&(-5i32).to_le_bytes());
    data.extend_from_slice(&u64::MAX.to_le_bytes());
    data.extend_from_slice(&(1u128 << 100).to_le_bytes());
    data.extend_from_slice(&[3; 32]);
    data.extend_from_slice(&[4; 10]);
    data.extend_from_slice(&[5; 200]);
    let mut args = ArgReader::new(data, 8);
    assert_eq!(args.take_u8(), Ok(7));
    assert_eq!(args.take_bool(), Ok(true));
    assert_eq!(args.take_u16(), Ok(513));
    assert_eq!(args.take_i32(), Ok(-5));
    assert_eq!(args.take_u64(), Ok(u64::MAX));
    assert_eq!(args.take_u128(), Ok(1u128 << 100));
    assert_eq!(args.take_address(), Ok([3; 32]));
    assert_eq!(args.take_bytes_10(), Ok([4; 10]));
    assert_eq!(args.take_bytes_200(), Ok([5; 200]));
    assert_eq!(args.take_u8(), refused());
}

#[test]
fn short_data_is_refused_and_not_passed() {
    let mut args = ArgReader::new(vec![1, 2, 3], 0);
    assert_eq!(args.take_u64(), refused());
    assert_eq!(args.take_u16(), Ok(513));
    assert_eq!(args.take_u16(), refused());
    assert_eq!(args.take_u8(), Ok(3));
    let mut far = ArgReader::new(vec![1], usize::MAX);
    assert_eq!(far.take_u8(), refused());
    let mut flag = ArgReader::new(vec![2], 0);
    assert_eq!(flag.take_bool(), refused());
}

#[test]
fn lists_announce_their_length() {
    let mut data = 2u32.to_le_bytes().to_vec();
    data.extend_from_slice(&[7; 32]);
    data.extend_from_slice(&[8; 32]);
    let mut args = ArgReader::new(data.clone(), 0);
    assert_eq!(args.take_addresses(), Ok(vec![[7; 32], [8; 32]]));
    assert_eq!(args.offset, 68);
    data.pop();
    let mut args = ArgReader::new(data, 0);
    assert_eq!(args.take_addresses(), refused());
    let mut empty = ArgReader::new(vec![0; 4], 0);
    assert_eq!(empty.take_addresses(), Ok(vec![]));
    let mut none = ArgReader::new(vec![0; 3], 0);
    assert_eq!(none.take_addresses(), refused());
}

#[test]
fn destination_lists() {
    let mut data = 1u32.to_le_bytes().to_vec();
    data.extend_from_slice(&[7; 32]);
    data.extend_from_slice(&10_000u16.to_le_bytes());
    data.extend_from_slice(&[8; 32]);
    let mut args = ArgReader::new(data.clone(), 0);
    let list = args.take_destinations().unwrap();
    assert_eq!(list.len(), 1);
    assert_eq!(list[0].address, [7; 32]);
    assert_eq!(list[0].allocation_bps, 10_000);
    assert_eq!(list[0].label, [8; 32]);
    data[0] = 2;
    let mut args = ArgReader::new(data, 0);
    assert_eq!(args.take_destinations(), refused());
}
