//! Single-use one-time pre-keys and the per-user pool of them. Each key is
//! intended to be consumed by exactly one incoming handshake.

use vstd::prelude::*;

use crate::byteops::bytes32_eq;
use crate::crypto::{fresh_uuid, x25519_keypair, x25519_public_of};

verus! {

/// The mathematical content of a [`OneTimePreKey`].
pub ghost struct OneTimePreKeyView {
    pub id: u128,
    pub private: Seq<u8>,
    pub public: Seq<u8>,
}

/// The public component is the X25519 public key of the private scalar.
pub open spec fn otpk_wf(v: OneTimePreKeyView) -> bool {
    v.public == x25519_public_of(v.private)
}

/// A single-use X25519 key pair with a unique identifier.
#[derive(Clone, Copy, Debug)]
pub struct OneTimePreKey {
    pub id: u128,
    private: [u8; 32],
    pub public: [u8; 32],
}

impl View for OneTimePreKey {
    type V = OneTimePreKeyView;

    closed spec fn view(&self) -> OneTimePreKeyView {
        OneTimePreKeyView { id: self.id, private: self.private@, public: self.public@ }
    }
}

impl OneTimePreKey {
    /// The public component is derived from the private scalar.
    pub open spec fn wf(self) -> bool {
        otpk_wf(self@)
    }

    /// Generates a fresh one-time pre-key pair with a fresh identifier.
    pub fn new() -> (r: Self)
        ensures
            r.wf(),
    {
        let (private, public) = x25519_keypair();
        Self { id: fresh_uuid(), private, public }
    }

    /// The private scalar. This exposes sensitive material.
    pub fn get_private(&self) -> (r: [u8; 32])
        ensures
            r@ == self@.private,
    {
        self.private
    }
}

/// A user's pool of one-time pre-keys.
#[derive(Clone, Debug)]
pub struct OneTimePreKeyGroup {
    keys: Vec<OneTimePreKey>,
}

impl View for OneTimePreKeyGroup {
    type V = Seq<OneTimePreKeyView>;

    closed spec fn view(&self) -> Seq<OneTimePreKeyView> {
        Seq::new(self.keys@.len(), |i: int| self.keys@[i]@)
    }
}

impl OneTimePreKeyGroup {
    /// Every key pair in the pool is well formed.
    pub open spec fn wf(self) -> bool {
        forall|i: int| 0 <= i < self@.len() ==> otpk_wf(#[trigger] self@[i])
    }

    /// Generates a pool of `size` fresh one-time pre-keys.
    pub fn new(size: usize) -> (r: Self)
        ensures
            r@.len() == size,
            r.wf(),
    {
        let mut keys: Vec<OneTimePreKey> = Vec::new();
        let mut i: usize = 0;
        while i < size
            invariant
                0 <= i <= size,
                keys@.len() == i,
                forall|j: int| 0 <= j < i ==> (#[trigger] keys@[j]).wf(),
            decreases size - i,
        {
            keys.push(OneTimePreKey::new());
            i += 1;
        }
        Self { keys }
    }

    /// Looks a pre-key up by its public key, without consuming it.
    pub fn get_by_public_key(&self, pubkey: [u8; 32]) -> (r: Option<OneTimePreKey>)
        ensures
            r is Some <==> exists|j: int|
                0 <= j < self@.len() && (#[trigger] self@[j]).public == pubkey@,
            r matches Some(k) ==> exists|j: int|
                0 <= j < self@.len() && #[trigger] self@[j] == k@ && k@.public == pubkey@,
    {
        let mut i: usize = 0;
        while i < self.keys.len()
            invariant
                0 <= i <= self.keys.len(),
                self@.len() == self.keys@.len(),
                forall|j: int| 0 <= j < i ==> (#[trigger] self@[j]).public != pubkey@,
            decreases self.keys.len() - i,
        {
            if bytes32_eq(&self.keys[i].public, &pubkey) {
                proof {
                    assert(self@[i as int].public == pubkey@);
                }
                return Some(self.keys[i]);
            }
            i += 1;
        }
        None
    }

    /// Looks a pre-key up by its public key and removes it from the pool:
    /// the single exclusive "lookup scalar and mark as consumed" step of an
    /// incoming handshake. Returns `None`, leaving the pool unchanged, when
    /// no key of the pool has that public.
    pub fn take_by_public_key(&mut self, pubkey: [u8; 32]) -> (r: Option<OneTimePreKey>)
        ensures
            r is Some <==> exists|j: int|
                0 <= j < old(self)@.len() && (#[trigger] old(self)@[j]).public == pubkey@,
            r matches Some(k) ==> exists|j: int|
                0 <= j < old(self)@.len() && #[trigger] old(self)@[j] == k@ && k@.public
                    == pubkey@ && final(self)@ == old(self)@.remove(j),
            r is None ==> final(self)@ == old(self)@,
            old(self).wf() ==> final(self).wf(),
    {
        let ghost orig: Seq<OneTimePreKeyView> = old(self)@;
        let mut i: usize = 0;
        while i < self.keys.len()
            invariant
                0 <= i <= self.keys.len(),
                self@ == orig,
                orig == old(self)@,
                self@.len() == self.keys@.len(),
                forall|j: int| 0 <= j < i ==> (#[trigger] self@[j]).public != pubkey@,
            decreases self.keys.len() - i,
        {
            if bytes32_eq(&self.keys[i].public, &pubkey) {
                proof {
                    assert(self@[i as int].public == pubkey@);
                }
                let k = self.keys.remove(i);
                proof {
                    assert(orig == old(self)@);
                    assert(self@ =~= orig.remove(i as int));
                    assert(orig[i as int] == k@);
                    if old(self).wf() {
                        assert forall|j: int| 0 <= j < self@.len() implies otpk_wf(
                            #[trigger] self@[j],
                        ) by {
                            if j < i {
                                assert(self@[j] == orig[j]);
                                assert(otpk_wf(old(self)@[j]));
                            } else {
                                assert(self@[j] == orig[j + 1]);
                                assert(otpk_wf(old(self)@[j + 1]));
                            }
                        }
                    }
                }
                return Some(k);
            }
            i += 1;
        }
        None
    }

    /// The number of pre-keys remaining in the pool.
    pub fn len(&self) -> (r: usize)
        ensures
            r == self@.len(),
    {
        self.keys.len()
    }

    /// The public-only snapshot of the pool, for publication.
    pub fn public_group(&self) -> (r: OneTimePreKeyGroupPublic)
        ensures
            r@.len() == self@.len(),
            forall|i: int|
                0 <= i < self@.len() ==> (#[trigger] r@[i]).id == self@[i].id && r@[i].public
                    == self@[i].public,
    {
        let mut keys: Vec<OneTimePreKeyPublic> = Vec::new();
        let mut i: usize = 0;
        while i < self.keys.len()
            invariant
                0 <= i <= self.keys.len(),
                self@.len() == self.keys@.len(),
                keys@.len() == i,
                forall|j: int|
                    0 <= j < i ==> (#[trigger] keys@[j]@).id == self@[j].id && keys@[j]@.public
                        == self@[j].public,
            decreases self.keys.len() - i,
        {
            keys.push(OneTimePreKeyPublic { id: self.keys[i].id, public: self.keys[i].public });
            i += 1;
        }
        OneTimePreKeyGroupPublic { keys }
    }
}

/// The mathematical content of a [`OneTimePreKeyPublic`].
pub ghost struct OneTimePreKeyPublicView {
    pub id: u128,
    pub public: Seq<u8>,
}

/// The public half of a one-time pre-key, for publication.
#[derive(Clone, Copy, Debug)]
pub struct OneTimePreKeyPublic {
    pub id: u128,
    pub public: [u8; 32],
}

impl View for OneTimePreKeyPublic {
    type V = OneTimePreKeyPublicView;

    open spec fn view(&self) -> OneTimePreKeyPublicView {
        OneTimePreKeyPublicView { id: self.id, public: self.public@ }
    }
}

/// A published group of public one-time pre-keys, consumed by senders when
/// they initiate a handshake.
#[derive(Clone, Debug)]
pub struct OneTimePreKeyGroupPublic {
    pub keys: Vec<OneTimePreKeyPublic>,
}

impl View for OneTimePreKeyGroupPublic {
    type V = Seq<OneTimePreKeyPublicView>;

    closed spec fn view(&self) -> Seq<OneTimePreKeyPublicView> {
        Seq::new(self.keys@.len(), |i: int| self.keys@[i]@)
    }
}

impl OneTimePreKeyGroupPublic {
    /// Selects a one-time pre-key from the group without consuming it: in
    /// this core the server is the authority on consumption, so the
    /// operation is idempotent and yields the first entry, or `None` when
    /// the group is empty.
    pub fn use_key(&self) -> (r: Option<OneTimePreKeyPublic>)
        ensures
            self@.len() > 0 ==> (r matches Some(k) && k@ == self@[0]),
            self@.len() == 0 ==> r is None,
    {
        if !self.keys.is_empty() {
            Some(self.keys[0])
        } else {
            None
        }
    }
}

} // verus!
