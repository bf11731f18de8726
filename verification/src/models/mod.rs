//! What the window manager keeps of windows, monitors and tags.
pub mod client;
pub mod laws;
pub mod monitor;
pub mod scrolling;
pub mod strips;
pub mod tags;

use vstd::prelude::*;

verus! {

/// Names one window for as long as it is managed.
pub type ClientKey = u64;

/// Names one monitor for as long as it is connected.
pub type MonitorKey = u64;

/// `s` cut or filled up with `value` to the length `len`.
pub open spec fn fitted<T>(s: Seq<T>, len: int, value: T) -> Seq<T> {
    if len <= s.len() {
        s.take(len)
    } else {
        s + Seq::new((len - s.len()) as nat, |i: int| value)
    }
}

/// Cuts or fills up `v` to the length `len`.
pub(crate) fn fit<T: Copy>(v: &mut Vec<T>, len: usize, value: T)
    ensures
        final(v)@ == fitted(old(v)@, len as int, value),
        final(v)@.len() == len,
{
    v.truncate(len);
    let ghost start = v@;
    while v.len() < len
        invariant
            start.len() <= v@.len() <= len,
            v@ == start + Seq::new((v@.len() - start.len()) as nat, |i: int| value),
        decreases len - v@.len(),
    {
        v.push(value);
    }
    assert(v@ =~= fitted(old(v)@, len as int, value));
}

/// Whether `keys` holds `key`.
pub(crate) fn holds(keys: &[ClientKey], key: ClientKey) -> (r: bool)
    ensures
        r == keys@.contains(key),
{
    let mut i: usize = 0;
    while i < keys.len()
        invariant
            i <= keys@.len(),
            forall|j: int| 0 <= j < i ==> keys@[j] != key,
        decreases keys@.len() - i,
    {
        if keys[i] == key {
            return true;
        }
        i = i + 1;
    }
    false
}

} // verus!
