use lib::align::clamp_round_size;
use lib::align::new_alignment;
use lib::align::Align1;
use lib::align::Align16;
use lib::align::Align2;
use lib::align::Align4;
use lib::align::Align8;
use lib::align::AlignTy;
use lib::align::AlignWord;
use lib::align::NaturalAlignment;

#[test]
fn clamp_round_size_of_primitives() {
    assert_eq!(clamp_round_size::<u8>(), 1);
    assert_eq!(clamp_round_size::<bool>(), 1);
    assert_eq!(clamp_round_size::<u16>(), 2);
    assert_eq!(clamp_round_size::<u32>(), 4);
    assert_eq!(clamp_round_size::<u64>(), 8);
    assert_eq!(clamp_round_size::<u128>(), 16);
}

#[test]
fn clamp_round_size_rounds_up_and_clamps() {
    assert_eq!(clamp_round_size::<()>(), 1);
    assert_eq!(clamp_round_size::<[u8; 3]>(), 4);
    assert_eq!(clamp_round_size::<[u8; 5]>(), 8);
    assert_eq!(clamp_round_size::<[u8; 7]>(), 8);
    assert_eq!(clamp_round_size::<[u8; 9]>(), 16);
    assert_eq!(clamp_round_size::<[u8; 17]>(), 16);
    assert_eq!(clamp_round_size::<[u8; 100]>(), 16);
}

#[test]
fn clamp_round_size_matches_next_power_of_two() {
    assert_eq!(clamp_round_size::<[u8; 6]>(), 6usize.next_power_of_two());
    assert_eq!(clamp_round_size::<[u8; 33]>(), 33usize.next_power_of_two().min(16));
}

#[test]
fn align_markers() {
    assert_eq!(Align1::align(), 1);
    assert_eq!(Align2::align(), 2);
    assert_eq!(Align4::align(), 4);
    assert_eq!(Align8::align(), 8);
    assert_eq!(Align16::align(), 16);
    let _a: Align8 = new_alignment::<Align8>();
}

#[test]
fn natural_alignment_of_primitives() {
    assert_eq!(<bool as NaturalAlignment>::natural_alignment(), 1);
    assert_eq!(<i8 as NaturalAlignment>::natural_alignment(), 1);
    assert_eq!(<u16 as NaturalAlignment>::natural_alignment(), 2);
    assert_eq!(<i32 as NaturalAlignment>::natural_alignment(), 4);
    assert_eq!(<u64 as NaturalAlignment>::natural_alignment(), 8);
    assert_eq!(<i128 as NaturalAlignment>::natural_alignment(), 16);
    assert_eq!(<<u32 as NaturalAlignment>::Align as AlignTy>::align(), 4);
}

#[test]
fn natural_alignment_of_words() {
    let word = core::mem::size_of::<usize>();
    assert_eq!(<usize as NaturalAlignment>::natural_alignment(), word);
    assert_eq!(<isize as NaturalAlignment>::natural_alignment(), word);
    assert_eq!(AlignWord::align(), word);
    assert!(AlignWord::align() == 4 || AlignWord::align() == 8);
}
