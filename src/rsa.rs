//! RSA capabilities: modulus lengths, backend errors, and the traits that a
//! cryptographic backend implements to verify and produce signatures.
use vstd::prelude::*;

verus! {

/// A length for the modulus of an RSA public key.
#[derive(Clone, Copy, PartialEq, Eq, Hash, Debug, Structural)]
pub enum ModulusLength {
    /// A 2048-bit modulus.
    Bits2048,
    /// A 3072-bit modulus.
    Bits3072,
    /// A 4096-bit modulus.
    Bits4096,
}

impl ModulusLength {
    /// The number of bits of a modulus of this length.
    pub open spec fn bits(self) -> nat {
        match self {
            ModulusLength::Bits2048 => 2048,
            ModulusLength::Bits3072 => 3072,
            ModulusLength::Bits4096 => 4096,
        }
    }

    /// The number of bytes of a modulus (or a ciphertext) of this length.
    pub open spec fn bytes(self) -> nat {
        self.bits() / 8
    }

    /// The length whose bit count is `len`, if there is one.
    pub open spec fn of_bits(len: int) -> Option<ModulusLength> {
        if len == 2048 {
            Some(ModulusLength::Bits2048)
        } else if len == 3072 {
            Some(ModulusLength::Bits3072)
        } else if len == 4096 {
            Some(ModulusLength::Bits4096)
        } else {
            None
        }
    }

    /// Returns the number of bytes necessary to represent a modulus (or,
    /// equivalently, a ciphertext) of this size.
    pub fn byte_len(self) -> (r: usize)
        ensures
            r == self.bytes(),
    {
        self.bit_len() / 8
    }

    /// Returns the number of bits necessary to represent a modulus of this
    /// size.
    pub fn bit_len(self) -> (r: usize)
        ensures
            r == self.bits(),
    {
        match self {
            ModulusLength::Bits2048 => 2048,
            ModulusLength::Bits3072 => 3072,
            ModulusLength::Bits4096 => 4096,
        }
    }

    /// Returns the length whose byte count is `len`, if one exists.
    pub fn from_byte_len(len: usize) -> (r: Option<Self>)
        ensures
            r == Self::of_bits(len * 8),
    {
        if len > 4096 / 8 {
            None
        } else {
            Self::from_bit_len(len * 8)
        }
    }

    /// Returns the length whose bit count is `len`, if one exists.
    pub fn from_bit_len(len: usize) -> (r: Option<Self>)
        ensures
            r == Self::of_bits(len as int),
    {
        match len {
            2048 => Some(ModulusLength::Bits2048),
            3072 => Some(ModulusLength::Bits3072),
            4096 => Some(ModulusLength::Bits4096),
            _ => None,
        }
    }
}

/// An error returned by an RSA backend: a backend-defined payload that the
/// protocol layer treats as a black box.
#[derive(Clone, Copy, PartialEq, Eq, Debug)]
pub enum Error<E = ()> {
    /// The backend's own error.
    Custom(E),
}

impl<E> Error<E> {
    /// Erases the backend's error, replacing it with `()`.
    pub fn erased(self) -> (r: Error<()>)
        ensures
            r == Error::<()>::Custom(()),
    {
        match self {
            Error::Custom(_) => Error::Custom(()),
        }
    }
}

/// The RSA public key type of a particular [`Engine`].
///
/// A backend provides its own key types, which implement this trait.
pub trait PublicKey {
    /// The modulus length of this key.
    spec fn modulus_len(&self) -> ModulusLength;

    /// Returns this key's modulus length.
    fn len(&self) -> (r: ModulusLength)
        ensures
            r == self.modulus_len(),
    ;

    /// Returns true if this key is empty.
    fn is_empty(&self) -> bool {
        false
    }
}

/// The RSA public/private keypair type of a particular [`Signer`]: the
/// keypair analogue of [`PublicKey`].
pub trait Keypair {
    /// The public key type that goes with this keypair.
    type Pub: PublicKey;

    /// The modulus length of the public component of this keypair.
    spec fn public_len(&self) -> ModulusLength;

    /// Returns a copy of the public component of this keypair.
    fn public(&self) -> (r: Self::Pub)
        ensures
            r.modulus_len() == self.public_len(),
    ;

    /// Returns the public key's modulus length.
    fn pub_len(&self) -> (r: ModulusLength)
        ensures
            r == self.public_len(),
    ;
}

/// A builder of primed RSA engines.
///
/// A value of a type that implements this trait already holds everything it
/// needs (such as OS handles) to start performing RSA operations.
pub trait Builder {
    /// The engine that this builder produces.
    type Engine: Engine;

    /// Whether the engine supports public keys with moduli of length `len`.
    spec fn supports(&self, len: ModulusLength) -> bool;

    /// Checks, without side effects, whether [`Self::Engine`] supports public
    /// keys with moduli of length `len`.
    fn supports_modulus(&self, len: ModulusLength) -> (r: bool)
        ensures
            r == self.supports(len),
    ;

    /// Creates a new [`Engine`], primed with the given key, which may be used
    /// repeatedly to perform operations.
    fn new_engine(
        &self,
        key: <Self::Engine as Engine>::Key,
    ) -> Result<Self::Engine, Error<<Self::Engine as Engine>::Error>>;
}

/// A [`Builder`] that can also produce RSA signing engines.
pub trait SignerBuilder: Builder {
    /// The signer that this builder produces.
    type Signer: Signer<Engine = Self::Engine>;

    /// Creates a new [`Signer`], primed with the given keypair, which may be
    /// used repeatedly to perform operations.
    fn new_signer(
        &self,
        keypair: <Self::Signer as Signer>::Keypair,
    ) -> (r: Result<Self::Signer, Error<<Self::Engine as Engine>::Error>>)
        ensures
            r matches Ok(s) ==> s.key_len() == keypair.public_len(),
    ;
}

/// An RSA engine, already primed with a key.
///
/// There is no way to extract the key back out of an `Engine` value.
pub trait Engine {
    /// The error that the backend reports when an operation fails.
    type Error;
    /// The key type used by this engine.
    type Key: PublicKey;

    /// Verifies `signature`, in PKCS v1.5 format, against a hash of
    /// `message`.
    ///
    /// Returns `Ok(())` if the signature is valid; a signature that does not
    /// check and a fault of the backend both come back as `Err`.
    fn verify_signature(
        &mut self,
        signature: &[u8],
        message: &[u8],
    ) -> Result<(), Error<Self::Error>>;
}

/// An RSA signing engine, already primed with a keypair.
///
/// There is no way to extract the keypair back out of a `Signer` value.
pub trait Signer {
    /// The [`Engine`] type that this signer corresponds to.
    type Engine: Engine;

    /// The keypair type used by this signer.
    type Keypair: Keypair<Pub = <Self::Engine as Engine>::Key>;

    /// The modulus length of the public key that this signer was primed
    /// with.
    spec fn key_len(&self) -> ModulusLength;

    /// Returns the public key's modulus length (and, by extension, the length
    /// of a signature).
    fn pub_len(&self) -> (r: ModulusLength)
        ensures
            r == self.key_len(),
    ;

    /// Signs `message`, writing a PKCS v1.5 signature into the first
    /// `self.pub_len().byte_len()` bytes of `signature`; the bytes after those
    /// are left as they were.
    ///
    /// The caller sizes `signature`: it holds at least that many bytes.
    fn sign(
        &mut self,
        message: &[u8],
        signature: &mut [u8],
    ) -> (r: Result<(), Error<<Self::Engine as Engine>::Error>>)
        requires
            old(signature)@.len() >= old(self).key_len().bytes(),
        ensures
            final(self).key_len() == old(self).key_len(),
            final(signature)@.len() == old(signature)@.len(),
            forall|i: int|
                old(self).key_len().bytes() <= i < old(signature)@.len() ==> final(signature)@[i]
                    == old(signature)@[i],
    ;
}

} // verus!
