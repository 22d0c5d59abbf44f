use vstd::prelude::*;

use crate::message::UpdateLights;

verus! {

#[verifier::external_type_specification]
#[verifier::external_body]
#[verifier::reject_recursive_types(T)]
pub struct ExSender<T>(std::sync::mpsc::Sender<T>);

/// The messages that the channel has taken through a sending end, in the
/// order in which they were sent.
pub uninterp spec fn accepted(tx: std::sync::mpsc::Sender<UpdateLights>) -> Seq<UpdateLights>;

/// Relies on std's `Sender::send`: it never blocks; a success queues the
/// message behind those sent before it; it fails only once the receiving end
/// is gone, and then the error hands back the message, which was not queued.
#[verifier::external_body]
fn send_update(tx: &mut std::sync::mpsc::Sender<UpdateLights>, m: UpdateLights) -> (r: Result<
    (),
    UpdateLights,
>)
    ensures
        r is Ok ==> accepted(*final(tx)) == accepted(*old(tx)).push(m),
        r matches Err(back) ==> back == m && accepted(*final(tx)) == accepted(*old(tx)),
{
    tx.send(m).map_err(|e| e.0)
}

/// Why an initialization was refused.
#[derive(Clone, Copy, Debug, PartialEq, Eq, Structural)]
pub enum InitError {
    /// The registry already holds a logger and a sender.
    AlreadyInitialized,
}

/// The status code of a successful initialization.
pub const INIT_OK: i32 = 0;

/// The status code of a refused initialization.
pub const INIT_REFUSED: i32 = 1;

/// The status code that a host receives for an initialization outcome.
pub fn init_status_code(r: &Result<(), InitError>) -> (code: i32)
    ensures
        r is Ok ==> code == INIT_OK,
        r is Err ==> code == INIT_REFUSED,
{
    match r {
        Ok(()) => INIT_OK,
        Err(_) => INIT_REFUSED,
    }
}

/// What became of a message handed to the registry.
#[derive(Clone, Copy, Debug, PartialEq, Eq, Structural)]
pub enum Delivery {
    /// It is queued for the render loop.
    Sent,
    /// Nothing is installed yet; the message is dropped and there is no
    /// logger to tell.
    NotInitialized,
    /// The render loop has ended; the message is dropped and should be logged.
    Dropped(UpdateLights),
}

/// The set-once store of the host's logger and of the sending end of the
/// render loop's queue. It is empty until the first successful `initialize`
/// and never changes after it.
pub struct Registry<L> {
    installed: Option<(L, std::sync::mpsc::Sender<UpdateLights>)>,
}

impl<L> View for Registry<L> {
    type V = Option<(L, std::sync::mpsc::Sender<UpdateLights>)>;

    closed spec fn view(&self) -> Self::V {
        self.installed
    }
}

/// The registry after an initialization with `log` and `tx`.
pub open spec fn init_next<L>(
    v: Option<(L, std::sync::mpsc::Sender<UpdateLights>)>,
    log: L,
    tx: std::sync::mpsc::Sender<UpdateLights>,
) -> Option<(L, std::sync::mpsc::Sender<UpdateLights>)> {
    if v is None {
        Some((log, tx))
    } else {
        v
    }
}

/// The outcome of an initialization: success exactly on an empty registry.
pub open spec fn init_outcome<L>(v: Option<(L, std::sync::mpsc::Sender<UpdateLights>)>) -> Result<
    (),
    InitError,
> {
    if v is None {
        Ok(())
    } else {
        Err(InitError::AlreadyInitialized)
    }
}

impl<L> Registry<L> {
    pub fn new() -> (r: Registry<L>)
        ensures
            r@ is None,
    {
        Registry { installed: None }
    }

    pub fn is_initialized(&self) -> (b: bool)
        ensures
            b == self@ is Some,
    {
        self.installed.is_some()
    }

    /// Installs the logger and the sender, once: a second call is refused and
    /// leaves the first ones in place.
    pub fn initialize(&mut self, log: L, tx: std::sync::mpsc::Sender<UpdateLights>) -> (r: Result<
        (),
        InitError,
    >)
        ensures
            final(self)@ == init_next(old(self)@, log, tx),
            r == init_outcome(old(self)@),
    {
        if self.installed.is_some() {
            Err(InitError::AlreadyInitialized)
        } else {
            self.installed = Some((log, tx));
            Ok(())
        }
    }

    /// The installed logger, if any.
    pub fn logger(&self) -> (r: Option<&L>)
        ensures
            r is Some <==> self@ is Some,
            r matches Some(l) ==> *l == (self@->0).0,
    {
        match &self.installed {
            Some(pair) => Some(&pair.0),
            None => None,
        }
    }

    /// Hands a message to the render loop without waiting. Before
    /// initialization nothing is sent. After it the message is either queued
    /// behind those sent before it, or, where the loop has ended, given back as
    /// dropped with nothing queued. The logger and the sender stay installed.
    pub fn submit(&mut self, m: UpdateLights) -> (d: Delivery)
        ensures
            old(self)@ is None <==> d == Delivery::NotInitialized,
            old(self)@ is None ==> final(self)@ is None,
            old(self)@ is Some ==> (d == Delivery::Sent || d == Delivery::Dropped(m)),
            old(self)@ is Some ==> final(self)@ is Some && (final(self)@->0).0 == (old(
                self,
            )@->0).0,
            d == Delivery::Sent ==> accepted((final(self)@->0).1) == accepted(
                (old(self)@->0).1,
            ).push(m),
            d is Dropped ==> accepted((final(self)@->0).1) == accepted((old(self)@->0).1),
    {
        match self.installed.take() {
            None => Delivery::NotInitialized,
            Some((log, mut tx)) => {
                let d = match send_update(&mut tx, m) {
                    Ok(()) => Delivery::Sent,
                    Err(back) => Delivery::Dropped(back),
                };
                self.installed = Some((log, tx));
                d
            },
        }
    }
}

} // verus!
