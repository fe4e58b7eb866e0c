//! The one thing the interpreter asks of its host: a random byte.

use vstd::prelude::*;

verus! {

/// Asks the browser for random bytes and hands back the first of them.
///
/// The body reaches `web_sys::window`, `Window::crypto` and
/// `Crypto::get_random_values_with_u8_array`. Nothing is claimed of the byte
/// that comes back; `None` stands for a host without a window, without a
/// `crypto` object, or whose `getRandomValues` raised an exception.
///
/// The bindings are there on a wasm32 target only. Built for any other
/// target they panic when called, so a host that is no browser draws the
/// byte itself and hands it to `Cpu::tick_with`.
#[verifier::external_body]
pub fn get_random_u8() -> (drawn: Option<u8>) {
    let mut rand_arry = [0u8; 128];
    let crypto = web_sys::window()?.crypto().ok()?;
    crypto.get_random_values_with_u8_array(&mut rand_arry).ok()?;
    Some(rand_arry[0])
}

} // verus!
