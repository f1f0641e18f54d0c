use core::convert::Infallible;
use core::fmt::Debug;
use core::num::TryFromIntError;
use lc3_traits::control::rpc::encoding::{
    ChainedDecode, ChainedEncode, ChainedEncoding, CoreConvert, Decode, Encode, Encoding, Pair,
    Transparent,
};

#[derive(Debug, Copy, Clone, Default)]
struct U8ToU16;

impl Encode<u8> for U8ToU16 {
    type Encoded = u16;
    fn encodes(&self, m: u8, e: u16) -> bool {
        e == m as u16
    }
    fn encode(&mut self, m: u8) -> u16 {
        m as u16
    }
}

impl Decode<u8> for U8ToU16 {
    type Encoded = u16;
    type Err = TryFromIntError;
    fn decodes(&self, e: u16, r: Result<u8, TryFromIntError>) -> bool {
        match r {
            Ok(m) => m as u16 == e,
            Err(_) => e > u8::MAX as u16,
        }
    }
    fn decode(&mut self, e: &u16) -> Result<u8, TryFromIntError> {
        core::convert::TryInto::try_into(*e)
    }
}

#[derive(Debug, Copy, Clone, Default)]
struct U16ToU32;

impl Encode<u16> for U16ToU32 {
    type Encoded = u32;
    fn encodes(&self, m: u16, e: u32) -> bool {
        e == m as u32
    }
    fn encode(&mut self, m: u16) -> u32 {
        m as u32
    }
}

impl Decode<u16> for U16ToU32 {
    type Encoded = u32;
    type Err = TryFromIntError;
    fn decodes(&self, e: u32, r: Result<u16, TryFromIntError>) -> bool {
        match r {
            Ok(m) => m as u32 == e,
            Err(_) => e > u16::MAX as u32,
        }
    }
    fn decode(&mut self, e: &u32) -> Result<u16, TryFromIntError> {
        core::convert::TryInto::try_into(*e)
    }
}

#[derive(Debug, Copy, Clone, Default)]
struct U32ToU64;

impl Encode<u32> for U32ToU64 {
    type Encoded = u64;
    fn encodes(&self, m: u32, e: u64) -> bool {
        e == m as u64
    }
    fn encode(&mut self, m: u32) -> u64 {
        m as u64
    }
}

impl Decode<u32> for U32ToU64 {
    type Encoded = u64;
    type Err = TryFromIntError;
    fn decodes(&self, e: u64, r: Result<u32, TryFromIntError>) -> bool {
        match r {
            Ok(m) => m as u64 == e,
            Err(_) => e > u32::MAX as u64,
        }
    }
    fn decode(&mut self, e: &u64) -> Result<u32, TryFromIntError> {
        core::convert::TryInto::try_into(*e)
    }
}

#[derive(Debug, Copy, Clone, Default)]
struct U64ToU128;

impl Encode<u64> for U64ToU128 {
    type Encoded = u128;
    fn encodes(&self, m: u64, e: u128) -> bool {
        e == m as u128
    }
    fn encode(&mut self, m: u64) -> u128 {
        m as u128
    }
}

impl Decode<u64> for U64ToU128 {
    type Encoded = u128;
    type Err = TryFromIntError;
    fn decodes(&self, e: u128, r: Result<u64, TryFromIntError>) -> bool {
        match r {
            Ok(m) => m as u128 == e,
            Err(_) => e > u64::MAX as u128,
        }
    }
    fn decode(&mut self, e: &u128) -> Result<u64, TryFromIntError> {
        core::convert::TryInto::try_into(*e)
    }
}

#[derive(Debug, Copy, Clone, Default)]
struct U8ToU128;

impl Encode<u8> for U8ToU128 {
    type Encoded = u128;
    fn encodes(&self, m: u8, e: u128) -> bool {
        e == m as u128
    }
    fn encode(&mut self, m: u8) -> u128 {
        m as u128
    }
}

impl Decode<u8> for U8ToU128 {
    type Encoded = u128;
    type Err = TryFromIntError;
    fn decodes(&self, e: u128, r: Result<u8, TryFromIntError>) -> bool {
        match r {
            Ok(m) => m as u128 == e,
            Err(_) => e > u8::MAX as u128,
        }
    }
    fn decode(&mut self, e: &u128) -> Result<u8, TryFromIntError> {
        core::convert::TryInto::try_into(*e)
    }
}

fn check_transparent<T: Debug + Clone + Eq>(inp: T) {
    assert_eq!(inp, Transparent::<T>::new().encode(inp.clone()));
    assert_eq!(inp, Transparent::<T>::new().decode(&inp).unwrap());
}

#[derive(Copy, Clone, Debug, PartialEq, Eq)]
struct Foo {
    a: u8,
    b: u16,
    g: (u8, u128, u16),
}

#[test]
fn transparent() {
    check_transparent(8u8);
    check_transparent(8u8);
    check_transparent(Foo { a: 78, b: 900, g: (1, 2, 3) });
}

fn ser_default<M: Debug, E: Encoding<M> + Default>(m: M) -> <E as Encode<M>>::Encoded {
    E::default().encode(m)
}

fn de_default<M: Debug, E: Encoding<M> + Default>(
    e: <E as Encode<M>>::Encoded,
) -> Result<M, <E as Decode<M>>::Err> {
    E::default().decode(&e)
}

#[test]
fn encoding_blanket_impl() {
    let a: u16 = ser_default::<_, U8ToU16>(255u8);
    let a: u32 = ser_default::<_, U16ToU32>(a);
    let a: u64 = ser_default::<_, U32ToU64>(a);
    let a: u128 = ser_default::<_, U64ToU128>(a);

    let a: u64 = de_default::<_, U64ToU128>(a).unwrap();
    let a: u32 = de_default::<_, U32ToU64>(a).unwrap();
    let a: u16 = de_default::<_, U16ToU32>(a).unwrap();
    let a: u8 = de_default::<_, U8ToU16>(a).unwrap();

    assert_eq!(255u8, a);
}

fn ser<M: Debug, E: Encoding<M>>(mut e: E, m: M) -> <E as Encode<M>>::Encoded {
    e.encode(m)
}

fn de<M: Debug, E: Encoding<M>>(
    mut d: E,
    e: <E as Encode<M>>::Encoded,
) -> Result<M, <E as Decode<M>>::Err> {
    d.decode(&e)
}

fn ser_only<M: Debug, E: Encode<M>>(mut e: E, m: M) -> E::Encoded {
    e.encode(m)
}

fn de_only<M: Debug, E: Decode<M>>(mut d: E, e: E::Encoded) -> Result<M, E::Err> {
    d.decode(&e)
}

#[test]
fn chained_encoding() {
    let chain = ChainedEncoding::new(U8ToU16)
        .chain(U16ToU32)
        .chain(U32ToU64)
        .chain(U64ToU128);

    assert_eq!(255u128, ser(chain, 255u8));
    assert_eq!(Ok(255u8), de(chain, 255u128));

    assert_eq!(Ok(255u8), de(chain, ser(chain, 255u8)));
}

#[test]
fn chained_back_encode() {
    let chain = ChainedEncode::new(U64ToU128)
        .chain_back(U32ToU64)
        .chain_back(U16ToU32)
        .chain_back(U8ToU16);

    assert_eq!(255u128, ser_only(chain, 255u8));
}

#[test]
fn chained_back_decode() {
    let chain = ChainedDecode::new(U64ToU128)
        .chain_back(U32ToU64)
        .chain_back(U16ToU32)
        .chain_back(U8ToU16);

    assert_eq!(Ok(255u8), de_only(chain, 255u128));
}

#[test]
fn chained_encode() {
    let chain = ChainedEncode::new(U8ToU16)
        .chain(U16ToU32)
        .chain(U32ToU64)
        .chain(U64ToU128);

    assert_eq!(255u128, ser_only(chain, 255u8));
}

#[test]
fn chained_decode() {
    let chain = ChainedDecode::new(U8ToU16)
        .chain(U16ToU32)
        .chain(U32ToU64)
        .chain(U64ToU128);

    assert_eq!(Ok(255u8), de_only(chain, 255u128));
}

fn check_pair<M: Debug + Copy + PartialEq, E: Copy + Encoding<M>>(chain: E, m: M)
where
    <E as Decode<M>>::Err: PartialEq,
{
    assert_eq!(Ok(m), de(chain, ser(chain, m)));
}

#[test]
fn pair() {
    let enc_chain = ChainedEncode::new(U8ToU16)
        .chain(U16ToU32)
        .chain(U32ToU64)
        .chain(U64ToU128);

    let dec_chain = ChainedDecode::new(U8ToU16)
        .chain(U16ToU32)
        .chain(U32ToU64)
        .chain(U64ToU128);

    let chain = Pair::with(enc_chain, dec_chain);
    check_pair(chain, 255u8);

    check_pair(Pair::with(U8ToU128, U8ToU128), 254u8);
    check_pair(U8ToU128, 253u8);

    check_pair(Pair::with(enc_chain, U8ToU128), 252u8);
    check_pair(Pair::with(U8ToU128, dec_chain), 251u8);
}

#[test]
fn chained_decode_reports_the_failing_stage() {
    let chain = ChainedDecode::new(U8ToU16).chain(U16ToU32);
    assert!(de_only(chain, 70000u32).is_err());
    assert!(de_only(chain, 300u32).is_err());
    assert_eq!(Ok(7u8), de_only(chain, 7u32));
}

#[test]
fn core_convert_round_trip() {
    let mut enc = CoreConvert::<u32>::new();
    let e: u32 = Encode::<u16>::encode(&mut enc, 513u16);
    assert_eq!(e, 513u32);
    let d: Result<u16, _> = Decode::<u16>::decode(&mut enc, &e);
    assert_eq!(d, Ok(513u16));
    let too_big: Result<u16, _> = Decode::<u16>::decode(&mut enc, &70000u32);
    assert!(too_big.is_err());
}

#[test]
fn transparent_never_fails() {
    let r: Result<u64, Infallible> = Transparent::<u64>::new().decode(&42u64);
    assert_eq!(r, Ok(42u64));
}

#[test]
fn detached_chains_use_default_stages() {
    let enc = ChainedEncode::<u8, u16, U8ToU16, Transparent<u16>>::new_detached()
        .chain(U16ToU32)
        .chain(U32ToU64);
    assert_eq!(200u64, ser_only(enc, 200u8));

    let back = ChainedEncode::<u16, u32, U16ToU32, Transparent<u32>>::chain_back_detached::<u8, U8ToU16>();
    assert_eq!(7u32, ser_only(back, 7u8));

    let front = ChainedEncode::<u8, u16, U8ToU16, Transparent<u16>>::chain_front_detatched::<u32, U16ToU32>();
    assert_eq!(9u32, ser_only(front, 9u8));

    let dec = ChainedDecode::<u8, u16, U8ToU16, Transparent<u16>>::new_detached();
    assert_eq!(Ok(5u8), de_only(dec, 5u16));
    assert!(de_only(dec, 300u16).is_err());

    let dec_back = ChainedDecode::<u16, u32, U16ToU32, Transparent<u32>>::chain_back_detached::<u8, U8ToU16>();
    assert_eq!(Ok(12u8), de_only(dec_back, 12u32));

    let coding = ChainedEncoding::<u8, u16, U8ToU16, Transparent<u16>>::new_detached();
    assert_eq!(Ok(3u8), de(coding, ser(coding, 3u8)));
}

#[test]
fn default_pair_round_trips() {
    let p: Pair<u8, U8ToU128, U8ToU128> = Pair::default();
    check_pair(p, 250u8);
    let c: ChainedEncoding<u8, u16, U8ToU16, U16ToU32> = ChainedEncoding::default();
    assert_eq!(Ok(249u8), de(c, ser(c, 249u8)));
}
