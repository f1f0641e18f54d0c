//! The encoding layer of control RPC: the `Encode` and `Decode` traits and
//! combinators that build encodings out of smaller ones.
//!
//! An encoding maps a message to an encoded value (infallibly) and back
//! (fallibly). Encodings are chained: if `Outer` maps `A` to `B` and
//! `Inner` maps `B` to `C`, chaining them maps `A` to `C`.

use vstd::prelude::*;
use core::fmt::Debug;
use core::marker::PhantomData;
use core::convert::Infallible;
use core::convert::TryFrom;
use vstd::std_specs::convert::{IntoSpec, TryFromSpec};

verus! {

/// `PhantomData::clone`, which holds no data: the clone equals the
/// original.
pub assume_specification<T: core::marker::PointeeSized>[ <PhantomData<T> as Clone>::clone ](p: &PhantomData<T>) -> (r: PhantomData<T>)
    ensures
        r == *p,
;

/// Message to encoded value; encoding can't fail.
pub trait Encode<Message: Debug> {
    type Encoded: Debug;

    /// Whether `encoded` is what this encoder gives for `message`.
    spec fn encodes(&self, message: Message, encoded: Self::Encoded) -> bool;

    fn encode(&mut self, message: Message) -> (r: Self::Encoded)
        ensures
            old(self).encodes(message, r),
    ;
}

/// Encoded value to message; decoding may fail.
pub trait Decode<Message: Debug> {
    type Encoded: Debug;
    type Err: Debug;

    /// Whether `result` is what this decoder gives for `encoded`.
    spec fn decodes(&self, encoded: Self::Encoded, result: Result<Message, Self::Err>) -> bool;

    fn decode(&mut self, encoded: &Self::Encoded) -> (r: Result<Message, Self::Err>)
        ensures
            old(self).decodes(*encoded, r),
    ;
}

/// An encoder and a decoder that undo each other: decoding what was
/// encoded from a message always gives that message back.
pub open spec fn round_trips<M: Debug, E: Encode<M>, D: Decode<M, Encoded = <E as Encode<M>>::Encoded>>(
    enc: E,
    dec: D,
) -> bool {
    forall|m: M, e: <E as Encode<M>>::Encoded, r: Result<M, <D as Decode<M>>::Err>|
        #![trigger enc.encodes(m, e), dec.decodes(e, r)]
        enc.encodes(m, e) && dec.decodes(e, r) ==> r == Ok::<M, <D as Decode<M>>::Err>(m)
}

/// The identity encoding: the encoded form of a message is the message.
#[derive(Debug, Copy, Clone, PartialEq, Eq, Hash)]
pub struct Transparent<T: Debug>(PhantomData<T>);

impl<T: Debug> Default for Transparent<T> {
    fn default() -> (r: Self) {
        Transparent(PhantomData)
    }
}

impl<T: Debug> Transparent<T> {
    /// The identity encoding for `T`.
    pub fn new() -> Self {
        Transparent(PhantomData)
    }
}

impl<Message: Debug> Encode<Message> for Transparent<Message> {
    type Encoded = Message;

    open spec fn encodes(&self, message: Message, encoded: Message) -> bool {
        encoded == message
    }

    fn encode(&mut self, message: Message) -> (r: Message) {
        message
    }
}

impl<Message: Debug + Clone> Decode<Message> for Transparent<Message> {
    type Encoded = Message;
    type Err = Infallible;

    open spec fn decodes(&self, encoded: Message, result: Result<Message, Infallible>) -> bool {
        result matches Ok(m) && cloned(encoded, m)
    }

    fn decode(&mut self, encoded: &Message) -> (r: Result<Message, Infallible>) {
        Ok(encoded.clone())
    }
}

/// Decoding what the identity encoding encoded gives a clone of the
/// message.
pub proof fn lemma_transparent_round_trip<M: Debug + Clone>(t: Transparent<M>, m: M, e: M, r: Result<M, Infallible>)
    requires
        t.encodes(m, e),
        t.decodes(e, r),
    ensures
        r matches Ok(v) && cloned(m, v),
{
}

/// An encoder and a decoder for the same encoded type, put together.
#[derive(Debug, Copy, Clone, PartialEq, Eq, Hash)]
pub struct Pair<Message: Debug, Enc, Dec> where
    Enc: Encode<Message>,
    Dec: Decode<Message, Encoded = <Enc as Encode<Message>>::Encoded>,
 {
    enc: Enc,
    dec: Dec,
    _m: PhantomData<Message>,
}

impl<Message: Debug, Enc, Dec> Pair<Message, Enc, Dec> where
    Enc: Encode<Message>,
    Dec: Decode<Message, Encoded = <Enc as Encode<Message>>::Encoded>,
 {
    /// The encoder half.
    pub closed spec fn encoder(self) -> Enc {
        self.enc
    }

    /// The decoder half.
    pub closed spec fn decoder(self) -> Dec {
        self.dec
    }

    /// Puts an encoder and a decoder together.
    pub fn with(enc: Enc, dec: Dec) -> (r: Self)
        ensures
            r.encoder() == enc,
            r.decoder() == dec,
    {
        Pair { enc, dec, _m: PhantomData }
    }
}

impl<Message: Debug, Enc, Dec> Default for Pair<Message, Enc, Dec> where
    Enc: Default + Encode<Message>,
    Dec: Default + Decode<Message, Encoded = <Enc as Encode<Message>>::Encoded>,
 {
    /// The default encoder and the default decoder.
    fn default() -> (r: Self)
        ensures
            call_ensures(Enc::default, (), r.encoder()),
            call_ensures(Dec::default, (), r.decoder()),
    {
        Self::with(Enc::default(), Dec::default())
    }
}

impl<Message: Debug, Enc, Dec> Encode<Message> for Pair<Message, Enc, Dec> where
    Enc: Encode<Message>,
    Dec: Decode<Message, Encoded = <Enc as Encode<Message>>::Encoded>,
 {
    type Encoded = <Enc as Encode<Message>>::Encoded;

    open spec fn encodes(&self, message: Message, encoded: Self::Encoded) -> bool {
        self.encoder().encodes(message, encoded)
    }

    fn encode(&mut self, message: Message) -> (r: Self::Encoded) {
        self.enc.encode(message)
    }
}

impl<Message: Debug, Enc, Dec> Decode<Message> for Pair<Message, Enc, Dec> where
    Enc: Encode<Message>,
    Dec: Decode<Message, Encoded = <Enc as Encode<Message>>::Encoded>,
 {
    type Encoded = <Enc as Encode<Message>>::Encoded;
    type Err = <Dec as Decode<Message>>::Err;

    open spec fn decodes(&self, encoded: Self::Encoded, result: Result<Message, Self::Err>) -> bool {
        self.decoder().decodes(encoded, result)
    }

    fn decode(&mut self, encoded: &Self::Encoded) -> (r: Result<Message, Self::Err>) {
        self.dec.decode(encoded)
    }
}

/// A pair of an encoder and a decoder that undo each other undoes itself.
pub proof fn lemma_pair_round_trip<M: Debug, Enc, Dec>(p: Pair<M, Enc, Dec>)
    where
        Enc: Encode<M>,
        Dec: Decode<M, Encoded = <Enc as Encode<M>>::Encoded>,
    requires
        round_trips::<M, Enc, Dec>(p.encoder(), p.decoder()),
    ensures
        round_trips::<M, Pair<M, Enc, Dec>, Pair<M, Enc, Dec>>(p, p),
{
    assert forall|m: M, e: <Enc as Encode<M>>::Encoded, r: Result<M, <Dec as Decode<M>>::Err>|
        #![trigger p.encodes(m, e), p.decodes(e, r)]
        p.encodes(m, e) && p.decodes(e, r) implies r == Ok::<M, <Dec as Decode<M>>::Err>(m) by {
        assert(p.encoder().encodes(m, e) && p.decoder().decodes(e, r));
    }
}

/// An encoding that both encodes and decodes the same encoded type.
/// Every type with matching `Encode` and `Decode` impls is one.
pub trait Encoding<Message: Debug>: Encode<Message> + Decode<Message, Encoded = <Self as Encode<Message>>::Encoded> {

}

impl<T, Message: Debug> Encoding<Message> for T where
    T: Encode<Message> + Decode<Message, Encoded = <T as Encode<Message>>::Encoded>,
 {

}

/// Two encoders in a row: `Outer` takes `A` to `B`, `Inner` takes `B`
/// further.
#[verifier::reject_recursive_types(A)]
#[verifier::reject_recursive_types(B)]
#[derive(Debug, Copy, Clone, PartialEq, Eq, PartialOrd, Ord, Hash)]
pub struct ChainedEncode<A: Debug, B: Debug, Outer, Inner> where
    Outer: Encode<A, Encoded = B>,
    Inner: Encode<B>,
 {
    outer: Outer,
    inner: Inner,
    _p: PhantomData<(A, B)>,
}

impl<A: Debug, B: Debug, Outer, Inner> ChainedEncode<A, B, Outer, Inner> where
    Outer: Encode<A, Encoded = B>,
    Inner: Encode<B>,
 {
    /// The first encoder.
    pub closed spec fn outer(self) -> Outer {
        self.outer
    }

    /// The second encoder.
    pub closed spec fn inner(self) -> Inner {
        self.inner
    }

    /// Chains `outer` and then `inner`.
    pub fn with(outer: Outer, inner: Inner) -> (r: Self)
        ensures
            r.outer() == outer,
            r.inner() == inner,
    {
        ChainedEncode { outer, inner, _p: PhantomData }
    }

    /// Puts another encoder in front of this chain.
    pub fn chain_back<Z: Debug, NewOuter: Encode<Z, Encoded = A>>(self, new_outer: NewOuter) -> (r: ChainedEncode<Z, A, NewOuter, Self>)
        ensures
            r.outer() == new_outer,
            r.inner() == self,
    {
        ChainedEncode::with(new_outer, self)
    }

    /// Puts another encoder after this chain.
    pub fn chain_front<Z: Debug, NewInner: Encode<<Inner as Encode<B>>::Encoded, Encoded = Z>>(self, new_inner: NewInner) -> (r: ChainedEncode<A, <Inner as Encode<B>>::Encoded, Self, NewInner>)
        ensures
            r.outer() == self,
            r.inner() == new_inner,
    {
        ChainedEncode::with(self, new_inner)
    }

    /// Same as `chain_front`.
    pub fn chain<Z: Debug, NewInner: Encode<<Inner as Encode<B>>::Encoded, Encoded = Z>>(self, new_inner: NewInner) -> (r: ChainedEncode<A, <Inner as Encode<B>>::Encoded, Self, NewInner>)
        ensures
            r.outer() == self,
            r.inner() == new_inner,
    {
        self.chain_front(new_inner)
    }
}

impl<A: Debug, Outer> ChainedEncode<A, <Outer as Encode<A>>::Encoded, Outer, Transparent<<Outer as Encode<A>>::Encoded>> where
    Outer: Encode<A>,
 {
    /// A chain of just `outer`.
    pub fn new(outer: Outer) -> (r: Self)
        ensures
            r.outer() == outer,
    {
        Self::with(outer, Transparent(PhantomData))
    }
}

impl<A: Debug, B: Debug, Outer, Inner> Default for ChainedEncode<A, B, Outer, Inner> where
    Outer: Default + Encode<A, Encoded = B>,
    Inner: Default + Encode<B>,
 {
    /// The chain of the two default encoders.
    fn default() -> (r: Self)
        ensures
            call_ensures(Outer::default, (), r.outer()),
            call_ensures(Inner::default, (), r.inner()),
    {
        Self::with(Outer::default(), Inner::default())
    }
}

impl<A: Debug, Outer> ChainedEncode<A, <Outer as Encode<A>>::Encoded, Outer, Transparent<<Outer as Encode<A>>::Encoded>> where
    Outer: Default + Encode<A>,
 {
    /// A chain of just the default `Outer`.
    pub fn new_detached() -> (r: Self)
        ensures
            call_ensures(Outer::default, (), r.outer()),
    {
        Self::new(Outer::default())
    }
}

impl<A: Debug, B: Debug, Outer, Inner> ChainedEncode<A, B, Outer, Inner> where
    Outer: Default + Encode<A, Encoded = B>,
    Inner: Default + Encode<B>,
 {
    /// The default chain with a default encoder put in front of it.
    pub fn chain_back_detached<Z: Debug, NewOuter: Encode<Z, Encoded = A>>() -> (r: ChainedEncode<Z, A, NewOuter, Self>)
        where
            NewOuter: Default,
        ensures
            call_ensures(NewOuter::default, (), r.outer()),
            call_ensures(Outer::default, (), r.inner().outer()),
            call_ensures(Inner::default, (), r.inner().inner()),
    {
        ChainedEncode::with(NewOuter::default(), Self::default())
    }

    /// The default chain with a default encoder put after it.
    pub fn chain_front_detatched<Z: Debug, NewInner: Encode<<Inner as Encode<B>>::Encoded, Encoded = Z>>() -> (r: ChainedEncode<A, <Inner as Encode<B>>::Encoded, Self, NewInner>)
        where
            NewInner: Default,
        ensures
            call_ensures(Outer::default, (), r.outer().outer()),
            call_ensures(Inner::default, (), r.outer().inner()),
            call_ensures(NewInner::default, (), r.inner()),
    {
        ChainedEncode::with(Self::default(), NewInner::default())
    }

    /// Same as `chain_front_detatched`.
    pub fn chain_detatched<Z: Debug, NewInner: Encode<<Inner as Encode<B>>::Encoded, Encoded = Z>>() -> (r: ChainedEncode<A, <Inner as Encode<B>>::Encoded, Self, NewInner>)
        where
            NewInner: Default,
        ensures
            call_ensures(Outer::default, (), r.outer().outer()),
            call_ensures(Inner::default, (), r.outer().inner()),
            call_ensures(NewInner::default, (), r.inner()),
    {
        Self::chain_front_detatched()
    }
}

impl<A: Debug, B: Debug, Outer, Inner> Encode<A> for ChainedEncode<A, B, Outer, Inner> where
    Outer: Encode<A, Encoded = B>,
    Inner: Encode<B>,
 {
    type Encoded = <Inner as Encode<B>>::Encoded;

    open spec fn encodes(&self, message: A, encoded: Self::Encoded) -> bool {
        exists|b: B| #[trigger] self.outer().encodes(message, b) && self.inner().encodes(b, encoded)
    }

    fn encode(&mut self, message: A) -> (r: Self::Encoded) {
        let b: B = self.outer.encode(message);
        let r = self.inner.encode(b);
        assert(old(self).outer().encodes(message, b) && old(self).inner().encodes(b, r));
        r
    }
}

/// Two decoders in a row: `Inner` takes the encoded value to `B`, `Outer`
/// takes `B` to `A`.
#[verifier::reject_recursive_types(A)]
#[verifier::reject_recursive_types(B)]
#[derive(Debug, Copy, Clone, PartialEq, Eq, PartialOrd, Ord, Hash)]
pub struct ChainedDecode<A: Debug, B: Debug, Outer, Inner> where
    Inner: Decode<B>,
    Outer: Decode<A, Encoded = B>,
 {
    outer: Outer,
    inner: Inner,
    _p: PhantomData<(A, B)>,
}

impl<A: Debug, B: Debug, Outer, Inner> ChainedDecode<A, B, Outer, Inner> where
    Inner: Decode<B>,
    Outer: Decode<A, Encoded = B>,
 {
    /// The last decoder.
    pub closed spec fn outer(self) -> Outer {
        self.outer
    }

    /// The first decoder.
    pub closed spec fn inner(self) -> Inner {
        self.inner
    }

    /// Chains `inner` and then `outer`.
    pub fn with(outer: Outer, inner: Inner) -> (r: Self)
        ensures
            r.outer() == outer,
            r.inner() == inner,
    {
        ChainedDecode { outer, inner, _p: PhantomData }
    }
}

impl<A: Debug, B: Debug, Outer, Inner> ChainedDecode<A, B, Outer, Inner> where
    Inner: Decode<B>,
    Outer: Decode<A, Encoded = B>,
    <Outer as Decode<A>>::Err: From<<Inner as Decode<B>>::Err>,
 {
    /// Puts another decoder after this chain.
    pub fn chain_back<Z: Debug, NewOuter: Decode<Z, Encoded = A>>(self, new_outer: NewOuter) -> (r: ChainedDecode<Z, A, NewOuter, Self>)
        where
            <Outer as Decode<A>>::Err: Into<<NewOuter as Decode<Z>>::Err>,
            <NewOuter as Decode<Z>>::Err: From<<Outer as Decode<A>>::Err>,
        ensures
            r.outer() == new_outer,
            r.inner() == self,
    {
        ChainedDecode::with(new_outer, self)
    }

    /// Puts another decoder in front of this chain.
    pub fn chain_front<Z: Debug, NewInner: Decode<<Inner as Decode<B>>::Encoded, Encoded = Z>>(self, new_inner: NewInner) -> (r: ChainedDecode<A, <Inner as Decode<B>>::Encoded, Self, NewInner>)
        where
            <Outer as Decode<A>>::Err: From<<NewInner as Decode<<Inner as Decode<B>>::Encoded>>::Err>,
        ensures
            r.outer() == self,
            r.inner() == new_inner,
    {
        ChainedDecode::with(self, new_inner)
    }

    /// Same as `chain_front`.
    pub fn chain<Z: Debug, NewInner: Decode<<Inner as Decode<B>>::Encoded, Encoded = Z>>(self, new_inner: NewInner) -> (r: ChainedDecode<A, <Inner as Decode<B>>::Encoded, Self, NewInner>)
        where
            <Outer as Decode<A>>::Err: From<<NewInner as Decode<<Inner as Decode<B>>::Encoded>>::Err>,
        ensures
            r.outer() == self,
            r.inner() == new_inner,
    {
        self.chain_front(new_inner)
    }
}

impl<A: Debug, Outer> ChainedDecode<A, <Outer as Decode<A>>::Encoded, Outer, Transparent<<Outer as Decode<A>>::Encoded>> where
    Outer: Decode<A>,
    <Outer as Decode<A>>::Encoded: Clone,
 {
    /// A chain of just `outer`.
    pub fn new(outer: Outer) -> (r: Self)
        ensures
            r.outer() == outer,
    {
        Self::with(outer, Transparent(PhantomData))
    }
}

impl<A: Debug, B: Debug, Outer, Inner> Default for ChainedDecode<A, B, Outer, Inner> where
    Inner: Default + Decode<B>,
    Outer: Default + Decode<A, Encoded = B>,
 {
    /// The chain of the two default decoders.
    fn default() -> (r: Self)
        ensures
            call_ensures(Outer::default, (), r.outer()),
            call_ensures(Inner::default, (), r.inner()),
    {
        Self::with(Outer::default(), Inner::default())
    }
}

impl<A: Debug, Outer> ChainedDecode<A, <Outer as Decode<A>>::Encoded, Outer, Transparent<<Outer as Decode<A>>::Encoded>> where
    Outer: Default + Decode<A>,
    <Outer as Decode<A>>::Encoded: Clone,
 {
    /// A chain of just the default `Outer`.
    pub fn new_detached() -> (r: Self)
        ensures
            call_ensures(Outer::default, (), r.outer()),
    {
        Self::new(Outer::default())
    }
}

impl<A: Debug, B: Debug, Outer, Inner> ChainedDecode<A, B, Outer, Inner> where
    Inner: Default + Decode<B>,
    Outer: Default + Decode<A, Encoded = B>,
    <Outer as Decode<A>>::Err: From<<Inner as Decode<B>>::Err>,
 {
    /// The default chain with a default decoder put after it.
    pub fn chain_back_detached<Z: Debug, NewOuter: Decode<Z, Encoded = A>>() -> (r: ChainedDecode<Z, A, NewOuter, Self>)
        where
            <Outer as Decode<A>>::Err: Into<<NewOuter as Decode<Z>>::Err>,
            <NewOuter as Decode<Z>>::Err: From<<Outer as Decode<A>>::Err>,
            NewOuter: Default,
        ensures
            call_ensures(NewOuter::default, (), r.outer()),
            call_ensures(Outer::default, (), r.inner().outer()),
            call_ensures(Inner::default, (), r.inner().inner()),
    {
        ChainedDecode::with(NewOuter::default(), Self::default())
    }

    /// The default chain with a default decoder put in front of it.
    pub fn chain_front_detatched<Z: Debug, NewInner: Decode<<Inner as Decode<B>>::Encoded, Encoded = Z>>() -> (r: ChainedDecode<A, <Inner as Decode<B>>::Encoded, Self, NewInner>)
        where
            <Outer as Decode<A>>::Err: From<<NewInner as Decode<<Inner as Decode<B>>::Encoded>>::Err>,
            NewInner: Default,
        ensures
            call_ensures(Outer::default, (), r.outer().outer()),
            call_ensures(Inner::default, (), r.outer().inner()),
            call_ensures(NewInner::default, (), r.inner()),
    {
        ChainedDecode::with(Self::default(), NewInner::default())
    }

    /// Same as `chain_front_detatched`.
    pub fn chain_detatched<Z: Debug, NewInner: Decode<<Inner as Decode<B>>::Encoded, Encoded = Z>>() -> (r: ChainedDecode<A, <Inner as Decode<B>>::Encoded, Self, NewInner>)
        where
            <Outer as Decode<A>>::Err: From<<NewInner as Decode<<Inner as Decode<B>>::Encoded>>::Err>,
            NewInner: Default,
        ensures
            call_ensures(Outer::default, (), r.outer().outer()),
            call_ensures(Inner::default, (), r.outer().inner()),
            call_ensures(NewInner::default, (), r.inner()),
    {
        Self::chain_front_detatched()
    }
}

impl<A: Debug, B: Debug, Outer, Inner> Decode<A> for ChainedDecode<A, B, Outer, Inner> where
    Inner: Decode<B>,
    Outer: Decode<A, Encoded = B>,
    <Outer as Decode<A>>::Err: From<<Inner as Decode<B>>::Err>,
 {
    type Encoded = <Inner as Decode<B>>::Encoded;
    type Err = <Outer as Decode<A>>::Err;

    open spec fn decodes(&self, encoded: Self::Encoded, result: Result<A, Self::Err>) -> bool {
        ||| exists|b: B| #[trigger] self.inner().decodes(encoded, Ok(b)) && self.outer().decodes(b, result)
        ||| (exists|x: <Inner as Decode<B>>::Err| #[trigger] self.inner().decodes(encoded, Err(x))) && result is Err
    }

    fn decode(&mut self, encoded: &Self::Encoded) -> (r: Result<A, Self::Err>) {
        match self.inner.decode(encoded) {
            Ok(b) => {
                let r = self.outer.decode(&b);
                assert(old(self).inner().decodes(*encoded, Ok(b)));
                r
            },
            Err(x) => {
                assert(old(self).inner().decodes(*encoded, Err(x)));
                Err(<Outer as Decode<A>>::Err::from(x))
            },
        }
    }
}

/// Chaining an encode chain and a decode chain whose links undo each other
/// gives an encoding that undoes itself: decoding the chain's encoding of
/// a message gives the message back.
pub proof fn lemma_chain_round_trip<A: Debug, B: Debug, EO, EI, DO, DI>(
    enc: ChainedEncode<A, B, EO, EI>,
    dec: ChainedDecode<A, B, DO, DI>,
)
    where
        EO: Encode<A, Encoded = B>,
        EI: Encode<B>,
        DI: Decode<B, Encoded = <EI as Encode<B>>::Encoded>,
        DO: Decode<A, Encoded = B>,
        <DO as Decode<A>>::Err: From<<DI as Decode<B>>::Err>,
    requires
        round_trips::<A, EO, DO>(enc.outer(), dec.outer()),
        round_trips::<B, EI, DI>(enc.inner(), dec.inner()),
    ensures
        round_trips::<A, ChainedEncode<A, B, EO, EI>, ChainedDecode<A, B, DO, DI>>(enc, dec),
{
    assert forall|m: A, e: <EI as Encode<B>>::Encoded, r: Result<A, <DO as Decode<A>>::Err>|
        #![trigger enc.encodes(m, e), dec.decodes(e, r)]
        enc.encodes(m, e) && dec.decodes(e, r) implies r == Ok::<A, <DO as Decode<A>>::Err>(m) by {
        let b = choose|b: B| #[trigger] enc.outer().encodes(m, b) && enc.inner().encodes(b, e);
        if exists|b2: B| #[trigger] dec.inner().decodes(e, Ok(b2)) && dec.outer().decodes(b2, r) {
            let b2 = choose|b2: B| #[trigger] dec.inner().decodes(e, Ok(b2)) && dec.outer().decodes(b2, r);
            assert(enc.inner().encodes(b, e) && dec.inner().decodes(e, Ok::<B, <DI as Decode<B>>::Err>(b2)));
            assert(b2 == b);
            assert(enc.outer().encodes(m, b) && dec.outer().decodes(b, r));
        } else {
            let x = choose|x: <DI as Decode<B>>::Err| #[trigger] dec.inner().decodes(e, Err(x));
            assert(enc.inner().encodes(b, e) && dec.inner().decodes(e, Err::<B, <DI as Decode<B>>::Err>(x)));
        }
    }
}

/// An encoding through the standard conversions: `Into` to encode and
/// `TryFrom` to decode.
#[derive(Debug, Copy, Clone, PartialEq, Eq, Hash)]
pub struct CoreConvert<T>(PhantomData<T>);

impl<T> Default for CoreConvert<T> {
    fn default() -> (r: Self) {
        CoreConvert(PhantomData)
    }
}

impl<T> CoreConvert<T> {
    /// The conversion encoding into `T`.
    pub fn new() -> Self {
        CoreConvert(PhantomData)
    }
}

impl<Encoded: Debug, Message: Debug + Into<Encoded>> Encode<Message> for CoreConvert<Encoded> {
    type Encoded = Encoded;

    open spec fn encodes(&self, message: Message, encoded: Encoded) -> bool {
        <Message as IntoSpec<Encoded>>::obeys_into_spec() ==> encoded == message.into_spec()
    }

    fn encode(&mut self, message: Message) -> (r: Encoded) {
        message.into()
    }
}

impl<Encoded: Debug + Clone, Message: Debug + TryFrom<Encoded>> Decode<Message> for CoreConvert<Encoded> where
    <Message as TryFrom<Encoded>>::Error: Debug,
 {
    type Encoded = Encoded;
    type Err = <Message as TryFrom<Encoded>>::Error;

    open spec fn decodes(&self, encoded: Encoded, result: Result<Message, Self::Err>) -> bool {
        exists|e: Encoded| #[trigger] cloned(encoded, e)
            && (<Message as TryFromSpec<Encoded>>::obeys_try_from_spec() ==> result == <Message as TryFromSpec<Encoded>>::try_from_spec(e))
    }

    fn decode(&mut self, encoded: &Encoded) -> (r: Result<Message, Self::Err>) {
        let e = encoded.clone();
        let r = Message::try_from(e);
        assert(cloned(*encoded, e));
        r
    }
}

/// Two encodings in a row, each both encoding and decoding: `Outer`
/// between `A` and `B`, `Inner` between `B` and its encoded type.
#[verifier::reject_recursive_types(A)]
#[verifier::reject_recursive_types(B)]
#[derive(Debug, Copy, Clone, PartialEq, Eq, PartialOrd, Ord, Hash)]
pub struct ChainedEncoding<A: Debug, B: Debug, Outer, Inner> where
    Inner: Encode<B>,
    Inner: Decode<B, Encoded = <Inner as Encode<B>>::Encoded>,
    Outer: Decode<A, Encoded = B> + Encode<A, Encoded = B>,
 {
    outer: Outer,
    inner: Inner,
    _p: PhantomData<(A, B)>,
}

impl<A: Debug, B: Debug, Outer, Inner> ChainedEncoding<A, B, Outer, Inner> where
    Inner: Encode<B>,
    Inner: Decode<B, Encoded = <Inner as Encode<B>>::Encoded>,
    Outer: Decode<A, Encoded = B> + Encode<A, Encoded = B>,
 {
    /// The encoding between `A` and `B`.
    pub closed spec fn outer(self) -> Outer {
        self.outer
    }

    /// The encoding between `B` and the final encoded type.
    pub closed spec fn inner(self) -> Inner {
        self.inner
    }

    /// Chains `outer` and then `inner`.
    pub fn with(outer: Outer, inner: Inner) -> (r: Self)
        ensures
            r.outer() == outer,
            r.inner() == inner,
    {
        ChainedEncoding { outer, inner, _p: PhantomData }
    }

    /// Puts another encoding in front of this chain.
    pub fn chain_back<Z: Debug, NewOuter>(self, new_outer: NewOuter) -> (r: ChainedEncoding<Z, A, NewOuter, Self>)
        where
            NewOuter: Encode<Z, Encoded = A> + Decode<Z, Encoded = A>,
            <Outer as Decode<A>>::Err: From<<Inner as Decode<B>>::Err>,
        ensures
            r.outer() == new_outer,
            r.inner() == self,
    {
        ChainedEncoding::with(new_outer, self)
    }

    /// Puts another encoding after this chain.
    pub fn chain_front<Z: Debug, NewInner>(self, new_inner: NewInner) -> (r: ChainedEncoding<A, <Inner as Encode<B>>::Encoded, Self, NewInner>)
        where
            NewInner: Encode<<Inner as Encode<B>>::Encoded, Encoded = Z> + Decode<<Inner as Encode<B>>::Encoded, Encoded = Z>,
            <Outer as Decode<A>>::Err: From<<Inner as Decode<B>>::Err>,
        ensures
            r.outer() == self,
            r.inner() == new_inner,
    {
        ChainedEncoding::with(self, new_inner)
    }

    /// Same as `chain_front`.
    pub fn chain<Z: Debug, NewInner>(self, new_inner: NewInner) -> (r: ChainedEncoding<A, <Inner as Encode<B>>::Encoded, Self, NewInner>)
        where
            NewInner: Encode<<Inner as Encode<B>>::Encoded, Encoded = Z> + Decode<<Inner as Encode<B>>::Encoded, Encoded = Z>,
            <Outer as Decode<A>>::Err: From<<Inner as Decode<B>>::Err>,
        ensures
            r.outer() == self,
            r.inner() == new_inner,
    {
        self.chain_front(new_inner)
    }
}

impl<A: Debug, Outer> ChainedEncoding<A, <Outer as Encode<A>>::Encoded, Outer, Transparent<<Outer as Encode<A>>::Encoded>> where
    Outer: Encode<A> + Decode<A, Encoded = <Outer as Encode<A>>::Encoded>,
    <Outer as Encode<A>>::Encoded: Clone,
 {
    /// A chain of just `outer`.
    pub fn new(outer: Outer) -> (r: Self)
        ensures
            r.outer() == outer,
    {
        Self::with(outer, Transparent(PhantomData))
    }
}

impl<A: Debug, B: Debug, Outer, Inner> Default for ChainedEncoding<A, B, Outer, Inner> where
    Inner: Default + Encode<B>,
    Inner: Decode<B, Encoded = <Inner as Encode<B>>::Encoded>,
    Outer: Default + Decode<A, Encoded = B> + Encode<A, Encoded = B>,
 {
    /// The chain of the two default encodings.
    fn default() -> (r: Self)
        ensures
            call_ensures(Outer::default, (), r.outer()),
            call_ensures(Inner::default, (), r.inner()),
    {
        Self::with(Outer::default(), Inner::default())
    }
}

impl<A: Debug, Outer> ChainedEncoding<A, <Outer as Encode<A>>::Encoded, Outer, Transparent<<Outer as Encode<A>>::Encoded>> where
    Outer: Default + Encode<A> + Decode<A, Encoded = <Outer as Encode<A>>::Encoded>,
    <Outer as Encode<A>>::Encoded: Clone,
 {
    /// A chain of just the default `Outer`.
    pub fn new_detached() -> (r: Self)
        ensures
            call_ensures(Outer::default, (), r.outer()),
    {
        Self::new(Outer::default())
    }
}

impl<A: Debug, B: Debug, Outer, Inner> ChainedEncoding<A, B, Outer, Inner> where
    Inner: Default + Encode<B>,
    Inner: Decode<B, Encoded = <Inner as Encode<B>>::Encoded>,
    Outer: Default + Decode<A, Encoded = B> + Encode<A, Encoded = B>,
 {
    /// The default chain with a default encoding put in front of it.
    pub fn chain_back_detached<Z: Debug, NewOuter>() -> (r: ChainedEncoding<Z, A, NewOuter, Self>)
        where
            NewOuter: Default + Encode<Z, Encoded = A> + Decode<Z, Encoded = A>,
            <Outer as Decode<A>>::Err: From<<Inner as Decode<B>>::Err>,
        ensures
            call_ensures(NewOuter::default, (), r.outer()),
            call_ensures(Outer::default, (), r.inner().outer()),
            call_ensures(Inner::default, (), r.inner().inner()),
    {
        ChainedEncoding::with(NewOuter::default(), Self::default())
    }

    /// The default chain with a default encoding put after it.
    pub fn chain_front_detatched<Z: Debug, NewInner>() -> (r: ChainedEncoding<A, <Inner as Encode<B>>::Encoded, Self, NewInner>)
        where
            NewInner: Default + Encode<<Inner as Encode<B>>::Encoded, Encoded = Z> + Decode<<Inner as Encode<B>>::Encoded, Encoded = Z>,
            <Outer as Decode<A>>::Err: From<<Inner as Decode<B>>::Err>,
        ensures
            call_ensures(Outer::default, (), r.outer().outer()),
            call_ensures(Inner::default, (), r.outer().inner()),
            call_ensures(NewInner::default, (), r.inner()),
    {
        ChainedEncoding::with(Self::default(), NewInner::default())
    }

    /// Same as `chain_front_detatched`.
    pub fn chain_detatched<Z: Debug, NewInner>() -> (r: ChainedEncoding<A, <Inner as Encode<B>>::Encoded, Self, NewInner>)
        where
            NewInner: Default + Encode<<Inner as Encode<B>>::Encoded, Encoded = Z> + Decode<<Inner as Encode<B>>::Encoded, Encoded = Z>,
            <Outer as Decode<A>>::Err: From<<Inner as Decode<B>>::Err>,
        ensures
            call_ensures(Outer::default, (), r.outer().outer()),
            call_ensures(Inner::default, (), r.outer().inner()),
            call_ensures(NewInner::default, (), r.inner()),
    {
        Self::chain_front_detatched()
    }
}

impl<A: Debug, B: Debug, Outer, Inner> Encode<A> for ChainedEncoding<A, B, Outer, Inner> where
    Inner: Encode<B>,
    Inner: Decode<B, Encoded = <Inner as Encode<B>>::Encoded>,
    Outer: Decode<A, Encoded = B> + Encode<A, Encoded = B>,
 {
    type Encoded = <Inner as Encode<B>>::Encoded;

    open spec fn encodes(&self, message: A, encoded: Self::Encoded) -> bool {
        exists|b: B| #[trigger] self.outer().encodes(message, b) && self.inner().encodes(b, encoded)
    }

    fn encode(&mut self, message: A) -> (r: Self::Encoded) {
        let b: B = self.outer.encode(message);
        let r = self.inner.encode(b);
        assert(old(self).outer().encodes(message, b) && old(self).inner().encodes(b, r));
        r
    }
}

impl<A: Debug, B: Debug, Outer, Inner> Decode<A> for ChainedEncoding<A, B, Outer, Inner> where
    Inner: Encode<B>,
    Inner: Decode<B, Encoded = <Inner as Encode<B>>::Encoded>,
    Outer: Decode<A, Encoded = B> + Encode<A, Encoded = B>,
    <Outer as Decode<A>>::Err: From<<Inner as Decode<B>>::Err>,
 {
    type Encoded = <Inner as Encode<B>>::Encoded;
    type Err = <Outer as Decode<A>>::Err;

    open spec fn decodes(&self, encoded: Self::Encoded, result: Result<A, Self::Err>) -> bool {
        ||| exists|b: B| #[trigger] self.inner().decodes(encoded, Ok(b)) && self.outer().decodes(b, result)
        ||| (exists|x: <Inner as Decode<B>>::Err| #[trigger] self.inner().decodes(encoded, Err(x))) && result is Err
    }

    fn decode(&mut self, encoded: &Self::Encoded) -> (r: Result<A, Self::Err>) {
        match self.inner.decode(encoded) {
            Ok(b) => {
                let r = self.outer.decode(&b);
                assert(old(self).inner().decodes(*encoded, Ok(b)));
                r
            },
            Err(x) => {
                assert(old(self).inner().decodes(*encoded, Err(x)));
                Err(<Outer as Decode<A>>::Err::from(x))
            },
        }
    }
}

/// A chain of two encodings that each undo themselves undoes itself:
/// decoding the chain's encoding of a message gives the message back.
pub proof fn lemma_chained_encoding_round_trip<A: Debug, B: Debug, Outer, Inner>(c: ChainedEncoding<A, B, Outer, Inner>)
    where
        Inner: Encode<B>,
        Inner: Decode<B, Encoded = <Inner as Encode<B>>::Encoded>,
        Outer: Decode<A, Encoded = B> + Encode<A, Encoded = B>,
        <Outer as Decode<A>>::Err: From<<Inner as Decode<B>>::Err>,
    requires
        round_trips::<A, Outer, Outer>(c.outer(), c.outer()),
        round_trips::<B, Inner, Inner>(c.inner(), c.inner()),
    ensures
        round_trips::<A, ChainedEncoding<A, B, Outer, Inner>, ChainedEncoding<A, B, Outer, Inner>>(c, c),
{
    assert forall|m: A, e: <Inner as Encode<B>>::Encoded, r: Result<A, <Outer as Decode<A>>::Err>|
        #![trigger c.encodes(m, e), c.decodes(e, r)]
        c.encodes(m, e) && c.decodes(e, r) implies r == Ok::<A, <Outer as Decode<A>>::Err>(m) by {
        let b = choose|b: B| #[trigger] c.outer().encodes(m, b) && c.inner().encodes(b, e);
        if exists|b2: B| #[trigger] c.inner().decodes(e, Ok(b2)) && c.outer().decodes(b2, r) {
            let b2 = choose|b2: B| #[trigger] c.inner().decodes(e, Ok(b2)) && c.outer().decodes(b2, r);
            assert(c.inner().encodes(b, e) && c.inner().decodes(e, Ok::<B, <Inner as Decode<B>>::Err>(b2)));
            assert(b2 == b);
            assert(c.outer().encodes(m, b) && c.outer().decodes(b, r));
        } else {
            let x = choose|x: <Inner as Decode<B>>::Err| #[trigger] c.inner().decodes(e, Err(x));
            assert(c.inner().encodes(b, e) && c.inner().decodes(e, Err::<B, <Inner as Decode<B>>::Err>(x)));
        }
    }
}

} // verus!
