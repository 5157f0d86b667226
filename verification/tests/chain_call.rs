use ink::scale::Encode;
use ink::xcm::v4::{Instruction, Junction, Location, Xcm};
use superdao::codec::MESSAGE_DEPTH_LIMIT;
use superdao::{ChainCall, Error};

#[test]
fn lib_new_works() {
    let location = Location::here();
    let msg: Xcm<()> = Xcm::new();
    let chain_call = ChainCall::new(&location, &msg);

    assert_eq!(chain_call.get_dest(), Ok(location.clone()));
    assert_eq!(chain_call.get_msg(), Ok(msg.clone()));
    assert_eq!(&chain_call.get_encoded_dest(), &location.encode());
    assert_eq!(&chain_call.get_encoded_msg(), &msg.encode());
}

#[test]
fn here_and_the_empty_message_have_known_encodings() {
    let chain_call = ChainCall::new(&Location::here(), &Xcm::<()>::new());
    assert_eq!(chain_call.get_encoded_dest(), vec![0u8, 0]);
    assert_eq!(chain_call.get_encoded_msg(), vec![0u8]);
}

#[test]
fn the_parent_has_a_known_encoding() {
    let chain_call = ChainCall::new(&Location::parent(), &Xcm::<()>(vec![Instruction::ClearOrigin]));
    assert_eq!(chain_call.get_encoded_dest(), vec![1u8, 0]);
    assert_eq!(chain_call.get_encoded_msg(), vec![4u8, 10]);
}

#[test]
fn a_location_with_junctions_comes_back() {
    let location = Location::new(
        1,
        [
            Junction::Parachain(2000),
            Junction::AccountId32 {
                network: None,
                id: [7; 32],
            },
        ],
    );
    let msg: Xcm<()> = Xcm(vec![
        Instruction::ClearOrigin,
        Instruction::SetTopic([3; 32]),
        Instruction::SetAppendix(Xcm(vec![Instruction::ClearOrigin])),
    ]);
    let chain_call = ChainCall::new(&location, &msg);
    assert_eq!(chain_call.get_dest(), Ok(location));
    assert_eq!(chain_call.get_msg(), Ok(msg));
}

#[test]
fn stored_bytes_are_handed_back_unchanged() {
    let chain_call = ChainCall::from_encoded(vec![1, 0], vec![4, 10]);
    assert_eq!(chain_call.get_encoded_dest(), vec![1u8, 0]);
    assert_eq!(chain_call.get_encoded_msg(), vec![4u8, 10]);
    assert_eq!(chain_call.get_dest(), Ok(Location::parent()));
    assert_eq!(
        chain_call.get_msg(),
        Ok(Xcm::<()>(vec![Instruction::ClearOrigin]))
    );
}

#[test]
fn equal_bytes_make_equal_calls() {
    let built = ChainCall::new(&Location::parent(), &Xcm::<()>(vec![Instruction::ClearOrigin]));
    let stored = ChainCall::from_encoded(vec![1, 0], vec![4, 10]);
    assert_eq!(built, stored);
    assert_eq!(built.clone(), built);
    assert_ne!(built, ChainCall::new(&Location::here(), &Xcm::<()>::new()));
}

#[test]
fn bytes_that_are_no_location_are_reported() {
    let chain_call = ChainCall::from_encoded(vec![], vec![0]);
    assert_eq!(chain_call.get_dest(), Err(Error::MalformedEncoding));
    assert_eq!(chain_call.get_msg(), Ok(Xcm::<()>::new()));

    let chain_call = ChainCall::from_encoded(vec![0, 200], vec![0]);
    assert_eq!(chain_call.get_dest(), Err(Error::MalformedEncoding));
}

#[test]
fn bytes_that_are_no_message_are_reported() {
    let chain_call = ChainCall::from_encoded(vec![0, 0], vec![]);
    assert_eq!(chain_call.get_dest(), Ok(Location::here()));
    assert_eq!(chain_call.get_msg(), Err(Error::MalformedEncoding));

    let chain_call = ChainCall::from_encoded(vec![0, 0], vec![4, 255]);
    assert_eq!(chain_call.get_msg(), Err(Error::MalformedEncoding));
}

#[test]
fn a_message_of_a_hundred_instructions_comes_back() {
    let msg: Xcm<()> = Xcm(vec![Instruction::ClearOrigin; 100]);
    let chain_call = ChainCall::new(&Location::here(), &msg);
    assert_eq!(chain_call.get_msg(), Ok(msg));
}

#[test]
fn a_message_of_more_than_a_hundred_instructions_does_not_come_back() {
    let msg: Xcm<()> = Xcm(vec![Instruction::ClearOrigin; 101]);
    let chain_call = ChainCall::new(&Location::here(), &msg);
    assert_eq!(chain_call.get_encoded_msg(), msg.encode());
    assert_eq!(chain_call.get_msg(), Err(Error::MalformedEncoding));
}

fn nested(levels: u32) -> Xcm<()> {
    let mut msg: Xcm<()> = Xcm(vec![Instruction::ClearOrigin]);
    for _ in 1..levels {
        msg = Xcm(vec![Instruction::SetAppendix(msg)]);
    }
    msg
}

#[test]
fn the_depth_limit_is_that_of_the_format() {
    assert_eq!(MESSAGE_DEPTH_LIMIT, 8);
    assert_eq!(MESSAGE_DEPTH_LIMIT, ink::xcm::MAX_XCM_DECODE_DEPTH);
}

#[test]
fn a_message_nested_to_the_limit_comes_back() {
    let msg = nested(MESSAGE_DEPTH_LIMIT);
    let chain_call = ChainCall::new(&Location::here(), &msg);
    assert_eq!(chain_call.get_msg(), Ok(msg));
}

#[test]
fn a_message_nested_beyond_the_limit_does_not_come_back() {
    let msg = nested(MESSAGE_DEPTH_LIMIT + 1);
    let chain_call = ChainCall::new(&Location::here(), &msg);
    assert_eq!(chain_call.get_encoded_msg(), msg.encode());
    assert_eq!(chain_call.get_msg(), Err(Error::MalformedEncoding));
}

#[test]
fn bytes_that_nest_without_end_are_reported() {
    let appendix = Xcm::<()>(vec![Instruction::SetAppendix(Xcm(vec![]))]).encode()[1];
    let mut bytes = Vec::new();
    for _ in 0..200_000 {
        bytes.extend_from_slice(&[0x01, 0x04, appendix]);
    }
    let chain_call = ChainCall::from_encoded(vec![0, 0], bytes);
    assert_eq!(chain_call.get_msg(), Err(Error::MalformedEncoding));
}

#[test]
fn a_message_of_two_hundred_and_fifty_six_instructions_comes_back() {
    let msg: Xcm<()> = Xcm(vec![Instruction::ClearOrigin; 256]);
    let chain_call = ChainCall::new(&Location::here(), &msg);
    assert_eq!(chain_call.get_msg(), Ok(msg));
}
