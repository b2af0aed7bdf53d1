use vstd::prelude::*;
use vstd::slice::slice_to_vec;

verus! {

/// What every request handler shares: the secret that session tokens are
/// signed and checked with. It is set once and only read afterwards.
#[derive(Clone)]
pub struct AppState {
    secret: Vec<u8>,
}

impl View for AppState {
    type V = Seq<u8>;

    closed spec fn view(&self) -> Seq<u8> {
        self.secret@
    }
}

impl AppState {
    /// A state that signs and checks with `secret`.
    pub fn new(secret: &[u8]) -> (state: Self)
        ensures
            state@ == secret@,
    {
        Self { secret: slice_to_vec(secret) }
    }

    /// The shared secret.
    pub fn secret(&self) -> (secret: &[u8])
        ensures
            secret@ == self@,
    {
        self.secret.as_slice()
    }
}

} // verus!
