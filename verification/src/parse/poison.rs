//! The state shared by the handles of a checked parser: a handle that is
//! given up before it was used to the end poisons the state, and every later
//! operation then fails with the poison error.
use vstd::prelude::*;
use core::marker::PhantomData;
use crate::bin_format::parse::{
    BinAnyParser,
    BinDiscriminantParser,
    BinKeyParser,
    BinMapParser,
    BinParserView,
    BinSeqParser,
    SimpleBinParser,
    bin_entry_key,
    bin_parse_step,
    bin_variant_step,
    discriminant_given,
};
use crate::decode::DecodeVariantHint;
use crate::error::Error;
use crate::parse::{EntryParser, ParseHint};

pub use crate::error::ParsePoisonError as PoisonError;

verus! {

/// The checked parser around a parser of type `T`.
pub struct PoisonParser<T>(pub PhantomData<T>);

/// Whether a misuse has been seen, and which.
pub struct PoisonState {
    pub poisoned: Result<(), PoisonError>,
}

impl PoisonState {
    /// The outcome of checking this state: `Ok` until a handle was given up.
    pub closed spec fn status(&self) -> Result<(), PoisonError> {
        self.poisoned
    }

    pub fn new() -> (r: PoisonState)
        ensures
            r.status() == Ok::<(), PoisonError>(()),
    {
        PoisonState { poisoned: Ok(()) }
    }

    /// Whether a handle was given up, and with which message.
    pub fn check(self) -> (r: Result<(), PoisonError>)
        ensures
            r == self.status(),
    {
        self.poisoned
    }

    /// Records that the handle described by `message` was given up.
    pub fn poison(&mut self, message: &'static str)
        ensures
            final(self).status() == Err::<(), PoisonError>(PoisonError(message)),
        opens_invariants none
        no_unwind
    {
        self.poisoned = Err(PoisonError(message));
    }
}

/// A handle's hold on the shared state: armed until the handle is used to
/// the end.  A guard that is given up while armed poisons the state.
pub struct PoisonGuard<'p> {
    pub state: Option<&'p mut PoisonState>,
    pub message: &'static str,
}

impl<'p> PoisonGuard<'p> {
    /// Whether the guard still holds the state.
    pub closed spec fn armed(&self) -> bool {
        self.state is Some
    }

    /// The state the guard holds, while it holds it.
    pub closed spec fn held(&self) -> PoisonState {
        *self.state->0
    }

    /// The message recorded if the guard is given up.
    pub closed spec fn message(&self) -> &'static str {
        self.message
    }

    /// An armed guard on `state`: the state that the guard's reference ends
    /// with is the state the caller gets back.
    pub fn new(state: &'p mut PoisonState, message: &'static str) -> (r: Self)
        ensures
            r.armed(),
            r.held() == *old(state),
            r.message() == message,
            r.message == message,
            r.state matches Some(s) && *final(s) == *final(state),
    {
        PoisonGuard { state: Some(state), message }
    }

    /// Disarms the guard: the handle was used to the end.  Gives the state
    /// back for the next handle.
    pub fn defuse(&mut self) -> (r: &'p mut PoisonState)
        requires
            old(self).armed(),
        ensures
            *r == old(self).held(),
            old(self).state matches Some(s) && *final(s) == *final(r),
            !final(self).armed(),
            final(self).message() == old(self).message(),
    {
        self.state.take().unwrap()
    }

    /// Disarms the guard and gives the state back, consuming the guard.
    pub fn defuse_into(self) -> (r: &'p mut PoisonState)
        requires
            self.armed(),
        ensures
            *r == self.held(),
            self.state matches Some(s) && *final(s) == *final(r),
    {
        let mut this = self;
        this.state.take().unwrap()
    }

    /// Whether the held state is still unpoisoned.
    pub fn check(&self) -> (r: Result<(), PoisonError>)
        requires
            self.armed(),
        ensures
            r == self.held().status(),
    {
        match &self.state {
            Some(state) => state.poisoned,
            None => Ok(()),
        }
    }

    /// Lends the held state, to pass it to a nested handle.
    pub fn state(&mut self) -> (r: &mut PoisonState)
        requires
            old(self).armed(),
        ensures
            *r == old(self).held(),
            final(self).armed(),
            final(self).held() == *final(r),
            final(self).message() == old(self).message(),
            old(self).state matches Some(s0) && final(self).state matches Some(s1) && *final(s0) == *final(s1),
    {
        self.state.as_mut().unwrap()
    }

    /// Gives the guard up.  An armed guard poisons the state with its
    /// message: the handle it belonged to was not used to the end.
    pub fn abandon(self)
        ensures
            self.state matches Some(s) ==> final(s).status() == Err::<(), PoisonError>(PoisonError(self.message())),
    {
        let mut this = self;
        match this.state.take() {
            Some(state) => state.poison(this.message),
            None => {},
        }
    }
}

/// A guard that goes out of scope while armed poisons the state with its
/// message, as `abandon` does.
impl<'p> Drop for PoisonGuard<'p> {
    fn drop(&mut self)
        opens_invariants none
        no_unwind
    {
        let message = self.message;
        match &mut self.state {
            Some(state) => state.poison(message),
            None => {},
        }
    }
}

/// Whether `g` is an armed guard on a state whose value is `state`, with
/// the message `message`.
pub open spec fn guards(g: PoisonGuard, state: PoisonState, message: &'static str) -> bool {
    g.armed() && g.held() == state && g.message() == message
}

/// The error a check of a poisoned state gives.
pub open spec fn poisoned(e: PoisonError) -> Error {
    Error::ParsePoison(e)
}

/// The handle of one value of the checked parser.
pub struct PoisonAnyParser<'p> {
    guard: PoisonGuard<'p>,
    inner: BinAnyParser,
}

/// The handle of a sequence of the checked parser.
pub struct PoisonSeqParser<'p> {
    guard: PoisonGuard<'p>,
    inner: BinSeqParser,
}

/// What one step of the checked parser found; the nested handles are guarded
/// on the shared state.
pub enum PoisonParserView<'p> {
    Primitive(crate::primitive::Primitive),
    String(String),
    Bytes(Vec<u8>),
    Absent,
    Present(PoisonSomeParser<'p>),
    Sequence(PoisonSeqParser<'p>),
    Mapping(PoisonMapParser<'p>),
    Enum(PoisonEnumParser<'p>),
}

/// The handle of a present option of the checked parser.
pub struct PoisonSomeParser<'p> {
    guard: PoisonGuard<'p>,
    read_some: bool,
}

/// The handle of the entries of a map or struct of the checked parser.
pub struct PoisonMapParser<'p> {
    guard: PoisonGuard<'p>,
    inner: BinMapParser,
}

/// The handle of one entry of the checked parser: its key, then its value,
/// then its end.
pub struct PoisonEntryParser<'p> {
    guard: PoisonGuard<'p>,
    inner: Option<BinKeyParser>,
    read_key: bool,
    read_value: bool,
}

/// The handle of an enum value of the checked parser: its discriminant,
/// then its variant, then its end.
pub struct PoisonEnumParser<'p> {
    guard: PoisonGuard<'p>,
    inner: Option<BinDiscriminantParser>,
    read_discriminant: bool,
    read_variant: bool,
}

impl<'p> PoisonAnyParser<'p> {
    pub closed spec fn guard(&self) -> PoisonGuard<'p> {
        self.guard
    }

    pub closed spec fn inner(&self) -> BinAnyParser {
        self.inner
    }

    /// A handle guarded on `state`: it must be parsed.
    pub fn new(state: &'p mut PoisonState, inner: BinAnyParser) -> (r: Self)
        ensures
            guards(r.guard(), *old(state), "Did not call AnyParser::parse"),
            r.inner() == inner,
            r.guard().state matches Some(s) && *final(s) == *final(state),
    {
        PoisonAnyParser { guard: PoisonGuard::new(state, "Did not call AnyParser::parse"), inner }
    }

    /// Parses the value, unless the shared state is poisoned.  A failure
    /// gives the handle up, which poisons the state with its message.
    pub fn parse<'de, 's>(self, parser: &mut SimpleBinParser<'de, 's>, hint: ParseHint) -> (r: Result<PoisonParserView<'p>, Error>)
        requires
            self.guard().armed(),
        ensures
            self.guard().held().status() matches Err(e) ==> r == Err::<PoisonParserView<'p>, Error>(poisoned(e))
                && *final(parser) == *old(parser),
            self.guard().held().status() is Ok ==> exists|r0: Result<BinParserView, Error>|
                #[trigger] bin_parse_step(*old(parser), self.inner(), hint, r0, *final(parser)) && match r0 {
                    Err(e) => r == Err::<PoisonParserView<'p>, Error>(e),
                    Ok(v) => r matches Ok(w) && view_wraps(w, v, self.guard().held()),
                },
            r is Err ==> (self.guard().state matches Some(s) && final(s).status() == Err::<(), PoisonError>(
                PoisonError(self.guard().message()),
            )),
            r matches Ok(w) && !(w is Present || w is Sequence || w is Mapping || w is Enum) ==> (
            self.guard().state matches Some(s) && *final(s) == self.guard().held()),
    {
        let PoisonAnyParser { guard, inner } = self;
        match guard.check() {
            Ok(()) => {},
            Err(e) => {
                guard.abandon();
                return Err(Error::ParsePoison(e));
            },
        }
        let view = parser.parse(inner, hint);
        match view {
            Ok(v) => {
                let state = guard.defuse_into();
                Ok(annotate_view(state, v))
            },
            Err(e) => {
                guard.abandon();
                Err(e)
            },
        }
    }
}

/// Whether the checked view `w` holds the view `v` of the parser, each
/// nested handle guarded on a state whose value is `state` with the message
/// of its kind.
pub open spec fn view_wraps<'p>(w: PoisonParserView<'p>, v: BinParserView, state: PoisonState) -> bool {
    match (w, v) {
        (PoisonParserView::Primitive(a), BinParserView::Primitive(b)) => a == b,
        (PoisonParserView::String(a), BinParserView::String(b)) => a == b,
        (PoisonParserView::Bytes(a), BinParserView::Bytes(b)) => a == b,
        (PoisonParserView::Absent, BinParserView::Absent) => true,
        (PoisonParserView::Present(a), BinParserView::Present(_)) => guards(a.guard(), state, "Did not finish reading some")
            && !a.read(),
        (PoisonParserView::Sequence(a), BinParserView::Sequence(b)) => guards(a.guard(), state, "Did not finish consuming seq")
            && a.inner() == b,
        (PoisonParserView::Mapping(a), BinParserView::Mapping(b)) => guards(a.guard(), state, "Did not finish consuming map")
            && a.inner() == b,
        (PoisonParserView::Enum(a), BinParserView::Enum(b)) => guards(a.guard(), state, "Did not finish reading enum")
            && a.inner() == Some(b) && !a.read_discriminant() && !a.read_variant(),
        _ => false,
    }
}

/// Guards the nested handle of a parser's view on `state`.
fn annotate_view<'p>(state: &'p mut PoisonState, view: BinParserView) -> (r: PoisonParserView<'p>)
    ensures
        view_wraps(r, view, *old(state)),
        !(r is Present || r is Sequence || r is Mapping || r is Enum) ==> *final(state) == *old(state),
{
    match view {
        BinParserView::Primitive(x) => PoisonParserView::Primitive(x),
        BinParserView::String(x) => PoisonParserView::String(x),
        BinParserView::Bytes(x) => PoisonParserView::Bytes(x),
        BinParserView::Absent => PoisonParserView::Absent,
        BinParserView::Present(_) => PoisonParserView::Present(PoisonSomeParser::new(state)),
        BinParserView::Sequence(x) => PoisonParserView::Sequence(PoisonSeqParser::new(state, x)),
        BinParserView::Mapping(x) => PoisonParserView::Mapping(PoisonMapParser::new(state, x)),
        BinParserView::Enum(x) => PoisonParserView::Enum(PoisonEnumParser::new(state, x)),
    }
}

impl<'p> PoisonSeqParser<'p> {
    pub closed spec fn guard(&self) -> PoisonGuard<'p> {
        self.guard
    }

    pub closed spec fn inner(&self) -> BinSeqParser {
        self.inner
    }

    /// A sequence handle guarded on `state`: its items must be read to the end.
    pub fn new(state: &'p mut PoisonState, inner: BinSeqParser) -> (r: Self)
        ensures
            guards(r.guard(), *old(state), "Did not finish consuming seq"),
            r.inner() == inner,
            r.guard().state matches Some(s) && *final(s) == *final(state),
    {
        PoisonSeqParser { guard: PoisonGuard::new(state, "Did not finish consuming seq"), inner }
    }

    /// The handle of the next item, or `None` at the end, which releases the
    /// sequence's hold on the state.
    pub fn parse_next<'de, 's>(&mut self, parser: &mut SimpleBinParser<'de, 's>) -> (r: Result<Option<PoisonAnyParser<'_>>, Error>)
        requires
            old(self).guard().armed(),
        ensures
            *final(parser) == *old(parser),
            old(self).guard().held().status() matches Err(e) ==> r == Err::<Option<PoisonAnyParser<'_>>, Error>(poisoned(e)),
            old(self).guard().held().status() is Ok && old(self).inner().remaining() > 0 ==> (r matches Ok(Some(a))
                && guards(a.guard(), old(self).guard().held(), "Did not call AnyParser::parse")
                && a.inner() is Read && final(self).guard().armed()
                && final(self).inner().remaining() == old(self).inner().remaining() - 1),
            old(self).guard().held().status() is Ok && old(self).inner().remaining() == 0 ==> (r matches Ok(None)
                && !final(self).guard().armed()),
            final(self).guard().message() == old(self).guard().message(),
    {
        match self.guard.check() {
            Ok(()) => {},
            Err(e) => return Err(Error::ParsePoison(e)),
        }
        match parser.parse_seq_next(&mut self.inner) {
            Ok(Some(a)) => {
                let state = self.guard.state();
                Ok(Some(PoisonAnyParser::new(state, a)))
            },
            Ok(None) => {
                let _ = self.guard.defuse();
                Ok(None)
            },
            Err(e) => Err(e),
        }
    }
}

impl<'p> PoisonSomeParser<'p> {
    pub closed spec fn guard(&self) -> PoisonGuard<'p> {
        self.guard
    }

    /// Whether the payload was asked for.
    pub closed spec fn read(&self) -> bool {
        self.read_some
    }

    /// A present option guarded on `state`: its payload must be read and
    /// the option ended.
    pub fn new(state: &'p mut PoisonState) -> (r: Self)
        ensures
            guards(r.guard(), *old(state), "Did not finish reading some"),
            !r.read(),
            r.guard().state matches Some(s) && *final(s) == *final(state),
    {
        PoisonSomeParser { guard: PoisonGuard::new(state, "Did not finish reading some"), read_some: false }
    }

    /// The handle of the payload; asked for once.
    pub fn parse_some<'de, 's>(&mut self, parser: &mut SimpleBinParser<'de, 's>) -> (r: Result<PoisonAnyParser<'_>, Error>)
        requires
            old(self).guard().armed(),
        ensures
            *final(parser) == *old(parser),
            final(self).guard().armed(),
            final(self).guard().message() == old(self).guard().message(),
            final(self).read(),
            old(self).read() ==> r == Err::<PoisonAnyParser<'_>, Error>(poisoned(PoisonError("already read some"))),
            !old(self).read() ==> (old(self).guard().held().status() matches Err(e) ==> r == Err::<PoisonAnyParser<'_>, Error>(poisoned(e))),
            !old(self).read() && old(self).guard().held().status() is Ok ==> (r matches Ok(a)
                && guards(a.guard(), old(self).guard().held(), "Did not call AnyParser::parse") && a.inner() is Read),
    {
        if self.read_some {
            return Err(Error::ParsePoison(PoisonError("already read some")));
        }
        self.read_some = true;
        match self.guard.check() {
            Ok(()) => {},
            Err(e) => return Err(Error::ParsePoison(e)),
        }
        match parser.parse_some_inner(()) {
            Ok((a, ())) => Ok(PoisonAnyParser::new(self.guard.state(), a)),
            Err(e) => Err(e),
        }
    }

    /// Ends the option once its payload was asked for.  A failure gives the
    /// handle up, which poisons the state with its message.
    pub fn parse_end<'de, 's>(self, parser: &mut SimpleBinParser<'de, 's>) -> (r: Result<(), Error>)
        requires
            self.guard().armed(),
        ensures
            *final(parser) == *old(parser),
            !self.read() ==> r == Err::<(), Error>(poisoned(PoisonError("did not read some"))),
            self.read() ==> (self.guard().held().status() matches Err(e) ==> r == Err::<(), Error>(poisoned(e))),
            self.read() && self.guard().held().status() is Ok ==> r is Ok,
            self.guard().state matches Some(s) && final(s).status() == (if r is Ok {
                self.guard().held().status()
            } else {
                Err::<(), PoisonError>(PoisonError(self.guard().message()))
            }),
    {
        let PoisonSomeParser { guard, read_some } = self;
        if !read_some {
            guard.abandon();
            return Err(Error::ParsePoison(PoisonError("did not read some")));
        }
        match guard.check() {
            Ok(()) => {},
            Err(e) => {
                guard.abandon();
                return Err(Error::ParsePoison(e));
            },
        }
        match parser.parse_some_end(()) {
            Ok(()) => {},
            Err(e) => {
                guard.abandon();
                return Err(e);
            },
        }
        let _ = guard.defuse_into();
        Ok(())
    }
}

impl<'p> PoisonMapParser<'p> {
    pub closed spec fn guard(&self) -> PoisonGuard<'p> {
        self.guard
    }

    pub closed spec fn inner(&self) -> BinMapParser {
        self.inner
    }

    /// A map handle guarded on `state`: its entries must be read to the end.
    pub fn new(state: &'p mut PoisonState, inner: BinMapParser) -> (r: Self)
        ensures
            guards(r.guard(), *old(state), "Did not finish consuming map"),
            r.inner() == inner,
            r.guard().state matches Some(s) && *final(s) == *final(state),
    {
        PoisonMapParser { guard: PoisonGuard::new(state, "Did not finish consuming map"), inner }
    }

    /// The handle of the next entry, or `None` at the end, which releases
    /// the map's hold on the state.
    pub fn parse_next<'de, 's>(&mut self, parser: &mut SimpleBinParser<'de, 's>) -> (r: Result<Option<PoisonEntryParser<'_>>, Error>)
        requires
            old(self).guard().armed(),
        ensures
            *final(parser) == *old(parser),
            final(self).guard().message() == old(self).guard().message(),
            old(self).guard().held().status() matches Err(e) ==> r == Err::<Option<PoisonEntryParser<'_>>, Error>(poisoned(e)),
            old(self).guard().held().status() is Ok ==> match old(self).inner().keys_left() {
                Some(k) => if k.len() > 0 {
                    r matches Ok(Some(x)) && x.fresh(old(self).guard().held())
                        && crate::bin_format::parse::parser_key_known(x.inner()->0) == Some(k[0])
                        && final(self).inner().keys_left() == Some(k.drop_first()) && final(self).guard().armed()
                } else {
                    r matches Ok(None) && !final(self).guard().armed()
                },
                None => if old(self).inner().entries_left() > 0 {
                    r matches Ok(Some(x)) && x.fresh(old(self).guard().held()) && x.inner() == Some(BinKeyParser::Read)
                        && final(self).inner().entries_left() == old(self).inner().entries_left() - 1
                        && final(self).guard().armed()
                } else {
                    r matches Ok(None) && !final(self).guard().armed()
                },
            },
    {
        match self.guard.check() {
            Ok(()) => {},
            Err(e) => return Err(Error::ParsePoison(e)),
        }
        match parser.parse_map_next(&mut self.inner) {
            Ok(Some(k)) => {
                let state = self.guard.state();
                Ok(Some(PoisonEntryParser::new(state, k)))
            },
            Ok(None) => {
                let _ = self.guard.defuse();
                Ok(None)
            },
            Err(e) => Err(e),
        }
    }
}

impl<'p> PoisonEntryParser<'p> {
    pub closed spec fn guard(&self) -> PoisonGuard<'p> {
        self.guard
    }

    /// The key handle, until the key is asked for.
    pub closed spec fn inner(&self) -> Option<BinKeyParser> {
        self.inner
    }

    pub closed spec fn read_key(&self) -> bool {
        self.read_key
    }

    pub closed spec fn read_value(&self) -> bool {
        self.read_value
    }

    /// The key handle is held until the key is asked for, and the value is
    /// asked for only after the key.
    pub closed spec fn wf(&self) -> bool {
        &&& !self.read_key ==> self.inner is Some
        &&& self.read_value ==> self.read_key
    }

    /// A new entry guarded on a state whose value is `state`: nothing of it
    /// asked for yet.
    pub open spec fn fresh(&self, state: PoisonState) -> bool {
        &&& guards(self.guard(), state, "Did not finish consuming entry")
        &&& self.wf()
        &&& self.inner() is Some
        &&& !self.read_key()
        &&& !self.read_value()
    }

    /// An entry handle guarded on `state`: its key, then its value, must be
    /// read and the entry ended.
    pub fn new(state: &'p mut PoisonState, inner: BinKeyParser) -> (r: Self)
        ensures
            r.fresh(*old(state)),
            r.inner() == Some(inner),
            r.guard().state matches Some(s) && *final(s) == *final(state),
    {
        PoisonEntryParser {
            guard: PoisonGuard::new(state, "Did not finish consuming entry"),
            inner: Some(inner),
            read_key: false,
            read_value: false,
        }
    }
}

impl<'q, 'p: 'q, 'de, 's> EntryParser<'q, SimpleBinParser<'de, 's>> for PoisonEntryParser<'p> {
    type AnyParser = PoisonAnyParser<'q>;

    /// Armed, with the key handle held until the key is asked for.
    open spec fn ready(&self) -> bool {
        self.guard().armed() && self.wf()
    }

    /// The handle of the key; asked for once.
    fn parse_key(&'q mut self, parser: &mut SimpleBinParser<'de, 's>) -> (r: Result<PoisonAnyParser<'q>, Error>)
        ensures
            *final(parser) == *old(parser),
            final(self).wf(),
            final(self).guard().armed(),
            final(self).guard().message() == old(self).guard().message(),
            final(self).read_key(),
            final(self).read_value() == old(self).read_value(),
            old(self).read_key() ==> r == Err::<PoisonAnyParser<'q>, Error>(poisoned(PoisonError("already read key"))),
            !old(self).read_key() ==> (old(self).guard().held().status() matches Err(e) ==> r == Err::<PoisonAnyParser<'q>, Error>(poisoned(e))),
            !old(self).read_key() && old(self).guard().held().status() is Ok ==> match bin_entry_key(old(self).inner()->0) {
                Ok((a, ())) => r matches Ok(x) && x.inner() == a
                    && guards(x.guard(), old(self).guard().held(), "Did not call AnyParser::parse"),
                Err(e) => r == Err::<PoisonAnyParser<'q>, Error>(e),
            },
    {
        if self.read_key {
            return Err(Error::ParsePoison(PoisonError("already read key")));
        }
        self.read_key = true;
        match self.guard.check() {
            Ok(()) => {},
            Err(e) => return Err(Error::ParsePoison(e)),
        }
        let key = self.inner.take().unwrap();
        match parser.parse_entry_key(key) {
            Ok((a, ())) => Ok(PoisonAnyParser::new(self.guard.state(), a)),
            Err(e) => Err(e),
        }
    }

    /// The handle of the value, after the key; asked for once.
    fn parse_value(&'q mut self, parser: &mut SimpleBinParser<'de, 's>) -> (r: Result<PoisonAnyParser<'q>, Error>)
        ensures
            *final(parser) == *old(parser),
            final(self).wf(),
            final(self).guard().armed(),
            final(self).guard().message() == old(self).guard().message(),
            final(self).read_key() == old(self).read_key(),
            final(self).inner() == old(self).inner(),
            (!old(self).read_key() || old(self).read_value()) ==> r == Err::<PoisonAnyParser<'q>, Error>(
                poisoned(PoisonError("already read value")),
            ) && final(self).read_value() == old(self).read_value(),
            old(self).read_key() && !old(self).read_value() ==> final(self).read_value() && match old(self).guard().held().status() {
                Err(e) => r == Err::<PoisonAnyParser<'q>, Error>(poisoned(e)),
                Ok(()) => r matches Ok(x) && x.inner() is Read
                    && guards(x.guard(), old(self).guard().held(), "Did not call AnyParser::parse"),
            },
    {
        if !self.read_key || self.read_value {
            return Err(Error::ParsePoison(PoisonError("already read value")));
        }
        self.read_value = true;
        match self.guard.check() {
            Ok(()) => {},
            Err(e) => return Err(Error::ParsePoison(e)),
        }
        match parser.parse_entry_value(()) {
            Ok(a) => Ok(PoisonAnyParser::new(self.guard.state(), a)),
            Err(e) => Err(e),
        }
    }

    /// Ends the entry once its value was asked for.  A failure gives the
    /// handle up, which poisons the state with its message.
    fn parse_end(self, parser: &mut SimpleBinParser<'de, 's>) -> (r: Result<(), Error>)
        ensures
            *final(parser) == *old(parser),
            !self.read_value() ==> r == Err::<(), Error>(poisoned(PoisonError("did not read value"))),
            self.read_value() ==> (self.guard().held().status() matches Err(e) ==> r == Err::<(), Error>(poisoned(e))),
            self.read_value() && self.guard().held().status() is Ok ==> r is Ok,
            self.guard().state matches Some(s) && final(s).status() == (if r is Ok {
                self.guard().held().status()
            } else {
                Err::<(), PoisonError>(PoisonError(self.guard().message()))
            }),
    {
        let PoisonEntryParser { guard, read_value, .. } = self;
        if !read_value {
            guard.abandon();
            return Err(Error::ParsePoison(PoisonError("did not read value")));
        }
        match guard.check() {
            Ok(()) => {},
            Err(e) => {
                guard.abandon();
                return Err(Error::ParsePoison(e));
            },
        }
        let _ = guard.defuse_into();
        Ok(())
    }
}

impl<'p> PoisonEnumParser<'p> {
    pub closed spec fn guard(&self) -> PoisonGuard<'p> {
        self.guard
    }

    /// The enum handle, until the discriminant is asked for.
    pub closed spec fn inner(&self) -> Option<BinDiscriminantParser> {
        self.inner
    }

    pub closed spec fn read_discriminant(&self) -> bool {
        self.read_discriminant
    }

    pub closed spec fn read_variant(&self) -> bool {
        self.read_variant
    }

    /// The enum handle is held until the discriminant is asked for, and the
    /// variant is asked for only after the discriminant.
    pub closed spec fn wf(&self) -> bool {
        &&& !self.read_discriminant ==> self.inner is Some
        &&& self.read_variant ==> self.read_discriminant
    }

    /// An enum handle guarded on `state`: its discriminant, then its
    /// variant, must be read and the enum ended.
    pub fn new(state: &'p mut PoisonState, inner: BinDiscriminantParser) -> (r: Self)
        ensures
            guards(r.guard(), *old(state), "Did not finish reading enum"),
            r.wf(),
            r.inner() == Some(inner),
            !r.read_discriminant(),
            !r.read_variant(),
            r.guard().state matches Some(s) && *final(s) == *final(state),
    {
        PoisonEnumParser {
            guard: PoisonGuard::new(state, "Did not finish reading enum"),
            inner: Some(inner),
            read_discriminant: false,
            read_variant: false,
        }
    }

    /// The handle of the discriminant; asked for once.
    pub fn parse_discriminant<'de, 's>(&mut self, parser: &mut SimpleBinParser<'de, 's>) -> (r: Result<PoisonAnyParser<'_>, Error>)
        requires
            old(self).guard().armed(),
            old(self).wf(),
        ensures
            *final(parser) == *old(parser),
            final(self).wf(),
            final(self).guard().armed(),
            final(self).guard().message() == old(self).guard().message(),
            final(self).read_discriminant(),
            final(self).read_variant() == old(self).read_variant(),
            old(self).read_discriminant() ==> r == Err::<PoisonAnyParser<'_>, Error>(poisoned(PoisonError("already read discriminant"))),
            !old(self).read_discriminant() ==> (old(self).guard().held().status() matches Err(e) ==> r == Err::<PoisonAnyParser<'_>, Error>(poisoned(e))),
            !old(self).read_discriminant() && old(self).guard().held().status() is Ok ==> exists|r0: Result<(BinAnyParser, ()), Error>|
                #[trigger] discriminant_given(old(self).inner()->0, r0) && match r0 {
                    Ok((a, ())) => r matches Ok(x) && x.inner() == a
                        && guards(x.guard(), old(self).guard().held(), "Did not call AnyParser::parse"),
                    Err(e) => r == Err::<PoisonAnyParser<'_>, Error>(e),
                },
    {
        if self.read_discriminant {
            return Err(Error::ParsePoison(PoisonError("already read discriminant")));
        }
        self.read_discriminant = true;
        match self.guard.check() {
            Ok(()) => {},
            Err(e) => return Err(Error::ParsePoison(e)),
        }
        let disc = self.inner.take().unwrap();
        let given = parser.parse_enum_discriminant(disc);
        let ghost g = given;
        assert(discriminant_given(old(self).inner->0, g));
        match given {
            Ok((a, ())) => Ok(PoisonAnyParser::new(self.guard.state(), a)),
            Err(e) => Err(e),
        }
    }

    /// The payload of the variant, after the discriminant; asked for once.
    pub fn parse_variant<'de, 's>(
        &mut self,
        parser: &mut SimpleBinParser<'de, 's>,
        hint: DecodeVariantHint,
    ) -> (r: Result<PoisonParserView<'_>, Error>)
        requires
            old(self).guard().armed(),
            old(self).wf(),
        ensures
            final(self).wf(),
            final(self).guard().armed(),
            final(self).guard().message() == old(self).guard().message(),
            final(self).read_discriminant() == old(self).read_discriminant(),
            final(self).inner() == old(self).inner(),
            !old(self).read_discriminant() ==> r == Err::<PoisonParserView<'_>, Error>(poisoned(PoisonError("did not read discriminant")))
                && final(self).read_variant() == old(self).read_variant() && *final(parser) == *old(parser),
            old(self).read_discriminant() && old(self).read_variant() ==> r == Err::<PoisonParserView<'_>, Error>(
                poisoned(PoisonError("already read variant")),
            ) && final(self).read_variant() && *final(parser) == *old(parser),
            old(self).read_discriminant() && !old(self).read_variant() ==> final(self).read_variant() && match old(self).guard().held().status() {
                Err(e) => r == Err::<PoisonParserView<'_>, Error>(poisoned(e)) && *final(parser) == *old(parser),
                Ok(()) => exists|r0: Result<(BinParserView, ()), Error>|
                    #[trigger] bin_variant_step(*old(parser), hint, r0, *final(parser)) && match r0 {
                        Ok((v, ())) => r matches Ok(w) && view_wraps(w, v, old(self).guard().held()),
                        Err(e) => r == Err::<PoisonParserView<'_>, Error>(e),
                    },
            },
    {
        if !self.read_discriminant {
            return Err(Error::ParsePoison(PoisonError("did not read discriminant")));
        }
        if self.read_variant {
            return Err(Error::ParsePoison(PoisonError("already read variant")));
        }
        self.read_variant = true;
        match self.guard.check() {
            Ok(()) => {},
            Err(e) => return Err(Error::ParsePoison(e)),
        }
        match parser.parse_enum_variant((), hint) {
            Ok((v, ())) => Ok(annotate_view(self.guard.state(), v)),
            Err(e) => Err(e),
        }
    }

    /// Ends the enum once its variant was read.  A failure gives the handle
    /// up, which poisons the state with its message.
    pub fn parse_end<'de, 's>(self, parser: &mut SimpleBinParser<'de, 's>) -> (r: Result<(), Error>)
        requires
            self.guard().armed(),
        ensures
            *final(parser) == *old(parser),
            !self.read_variant() ==> r == Err::<(), Error>(poisoned(PoisonError("Did not read variant"))),
            self.read_variant() ==> (self.guard().held().status() matches Err(e) ==> r == Err::<(), Error>(poisoned(e))),
            self.read_variant() && self.guard().held().status() is Ok ==> r is Ok,
            self.guard().state matches Some(s) && final(s).status() == (if r is Ok {
                self.guard().held().status()
            } else {
                Err::<(), PoisonError>(PoisonError(self.guard().message()))
            }),
    {
        let PoisonEnumParser { guard, read_variant, .. } = self;
        if !read_variant {
            guard.abandon();
            return Err(Error::ParsePoison(PoisonError("Did not read variant")));
        }
        match guard.check() {
            Ok(()) => {},
            Err(e) => {
                guard.abandon();
                return Err(Error::ParsePoison(e));
            },
        }
        match parser.parse_enum_end(()) {
            Ok(()) => {},
            Err(e) => {
                guard.abandon();
                return Err(e);
            },
        }
        let _ = guard.defuse_into();
        Ok(())
    }
}

} // verus!
