//! Codes for keys, encryption and security hardware, with the texts that
//! describe a security code as an error.

use crate::formatting::written;
use vstd::prelude::*;

verus! {

/// Security operations on encryption and keys
/// ### Examples
/// ```
/// # use custom_codes::SecOps;
/// let foo = SecOps::KeyCorrupted;
/// assert_eq!(foo, SecOps::KeyCorrupted);
/// ```
#[derive(Debug, PartialEq, Eq, Structural)]
pub enum SecOps {
    /// Key could not be verified as it did not finish streaming
    KeyCorrupted,
    /// Key Authentic and approved
    KeyAuthentic,
    /// Key has been tampered with
    KeyInvalid,
    /// Timed Out while verification was in progress
    TimedOut,
    /// Possible Identity Forgery
    PossibleIdTheft,
    /// Data encrypted has been corrupted
    DataCorrupted,
    /// Data has been tampered with
    DataInvalid,
    /// Data has been encrypted
    Encrypted,
    /// Key generation successful,
    KeyGenSucceded,
    /// Key generation failed
    KeyGenFailed,
    /// Key has been deleted
    KeyDeleted,
    /// random data generated from Cryptographically Secure PRNG (CSPRNG)
    CryptoRandomGenerated,
    /// random data generated from Cryptographically Secure PRNG (CSPRNG) was not generated successfully
    CryptoRandomGenFailure,
    /// random data generated from Noncryptographic PRNG
    NonCryptoRandomGenerated,
    /// random data generated from Noncryptographic PRNG was not generated successfully
    NonCryptoRandomGenFailure,
    /// Message Authentication Code is authentic
    AuthenticMAC,
    /// Message Authentication Code is corrupted
    InvalidMAC,
    /// Random Authentication Code (RAC) Token is genuine/authentic
    ValidRAC,
    ///  Random Authentication Code (RAC) Token is not genuine/authentic
    InvalidRAC,
    /// Key Length is equal to the length needed by the cryptography algorithm
    KeyLengthSane,
    /// Key length too short
    KeyTooShort(KeyLength),
    /// Key Length is too long
    KeyTooLong(KeyLength),
}

impl Clone for SecOps {
    /// A clone is equal to what it was made from.
    fn clone(&self) -> (r: Self)
        ensures
            r == *self,
    {
        match self {
            SecOps::KeyCorrupted => SecOps::KeyCorrupted,
            SecOps::KeyAuthentic => SecOps::KeyAuthentic,
            SecOps::KeyInvalid => SecOps::KeyInvalid,
            SecOps::TimedOut => SecOps::TimedOut,
            SecOps::PossibleIdTheft => SecOps::PossibleIdTheft,
            SecOps::DataCorrupted => SecOps::DataCorrupted,
            SecOps::DataInvalid => SecOps::DataInvalid,
            SecOps::Encrypted => SecOps::Encrypted,
            SecOps::KeyGenSucceded => SecOps::KeyGenSucceded,
            SecOps::KeyGenFailed => SecOps::KeyGenFailed,
            SecOps::KeyDeleted => SecOps::KeyDeleted,
            SecOps::CryptoRandomGenerated => SecOps::CryptoRandomGenerated,
            SecOps::CryptoRandomGenFailure => SecOps::CryptoRandomGenFailure,
            SecOps::NonCryptoRandomGenerated => SecOps::NonCryptoRandomGenerated,
            SecOps::NonCryptoRandomGenFailure => SecOps::NonCryptoRandomGenFailure,
            SecOps::AuthenticMAC => SecOps::AuthenticMAC,
            SecOps::InvalidMAC => SecOps::InvalidMAC,
            SecOps::ValidRAC => SecOps::ValidRAC,
            SecOps::InvalidRAC => SecOps::InvalidRAC,
            SecOps::KeyLengthSane => SecOps::KeyLengthSane,
            SecOps::KeyTooShort(x) => SecOps::KeyTooShort(x.clone()),
            SecOps::KeyTooLong(x) => SecOps::KeyTooLong(x.clone()),
        }
    }
}

/// `==` on `SecOps` is reflexive, symmetric and transitive,
/// and two values that carry a key length are equal exactly if they are the
/// same state and carry the same length.
pub proof fn sec_ops_equality_laws(a: SecOps, b: SecOps, c: SecOps, x: KeyLength, y: KeyLength)
    ensures
        a == a,
        a == b ==> b == a,
        a == b && b == c ==> a == c,
        SecOps::KeyTooShort(x) == SecOps::KeyTooShort(y) <==> x == y,
        SecOps::KeyTooLong(x) == SecOps::KeyTooLong(y) <==> x == y,
        SecOps::KeyTooShort(x) != SecOps::KeyTooLong(y),
{
}

impl SecOps {
    /// The text that describes this code, as `Display` writes it.
    pub open spec fn description_text(self) -> Seq<char> {
        match self {
            SecOps::KeyCorrupted => "Key could not be verified as it did not finish streaming"@,
            SecOps::KeyAuthentic => "Key Authentic and approved"@,
            SecOps::KeyInvalid => "Key has been tampered with"@,
            SecOps::TimedOut => "Timed Out while verification was in progress"@,
            SecOps::PossibleIdTheft => "Possible Identity Forgery"@,
            SecOps::DataCorrupted => "Data encrypted has been corrupted"@,
            SecOps::DataInvalid => "Data has been tampered with"@,
            SecOps::Encrypted => "Data has been encrypted"@,
            SecOps::KeyGenSucceded => "Key generation successful"@,
            SecOps::KeyGenFailed => "Key generation failed"@,
            SecOps::KeyDeleted => "Key has been deleted"@,
            SecOps::CryptoRandomGenerated => "random data generated from Cryptographically Secure PRNG (CSPRNG)"@,
            SecOps::CryptoRandomGenFailure => "random data generated from Cryptographically Secure PRNG (CSPRNG) was not generated"@,
            SecOps::NonCryptoRandomGenerated => "random data generated from Noncryptographic PRNG"@,
            SecOps::NonCryptoRandomGenFailure => "random data generated from Noncryptographic PRNG was not generated"@,
            SecOps::AuthenticMAC => "Message Authentication Code is authentic"@,
            SecOps::InvalidMAC => "Message Authentication Code is corrupted"@,
            SecOps::ValidRAC => "Random Authentication Code (RAC) Token is genuine/authentic"@,
            SecOps::InvalidRAC => "Random Authentication Code (RAC) Token is not genuine/authentic"@,
            SecOps::KeyLengthSane => "Key Length is equal to the length needed by the cryptography algorithm"@,
            SecOps::KeyTooShort(_) => "Key length too short"@,
            SecOps::KeyTooLong(_) => "Key Length is too long"@,
        }
    }

    /// The code that this code names as its cause. A code names itself, with
    /// two exceptions: `NonCryptoRandomGenerated` names
    /// `NonCryptoRandomGenFailure`, and a code about the length of a key names
    /// nothing.
    pub open spec fn named_cause(self) -> Option<SecOps> {
        match self {
            SecOps::KeyTooShort(_) | SecOps::KeyTooLong(_) => None,
            SecOps::NonCryptoRandomGenerated => Some(SecOps::NonCryptoRandomGenFailure),
            _ => Some(self),
        }
    }

    /// The text that describes this code.
    pub fn description(&self) -> (r: &'static str)
        ensures
            r@ == self.description_text(),
    {
        match self {
            SecOps::KeyCorrupted => "Key could not be verified as it did not finish streaming",
            SecOps::KeyAuthentic => "Key Authentic and approved",
            SecOps::KeyInvalid => "Key has been tampered with",
            SecOps::TimedOut => "Timed Out while verification was in progress",
            SecOps::PossibleIdTheft => "Possible Identity Forgery",
            SecOps::DataCorrupted => "Data encrypted has been corrupted",
            SecOps::DataInvalid => "Data has been tampered with",
            SecOps::Encrypted => "Data has been encrypted",
            SecOps::KeyGenSucceded => "Key generation successful",
            SecOps::KeyGenFailed => "Key generation failed",
            SecOps::KeyDeleted => "Key has been deleted",
            SecOps::CryptoRandomGenerated => "random data generated from Cryptographically Secure PRNG (CSPRNG)",
            SecOps::CryptoRandomGenFailure => "random data generated from Cryptographically Secure PRNG (CSPRNG) was not generated",
            SecOps::NonCryptoRandomGenerated => "random data generated from Noncryptographic PRNG",
            SecOps::NonCryptoRandomGenFailure => "random data generated from Noncryptographic PRNG was not generated",
            SecOps::AuthenticMAC => "Message Authentication Code is authentic",
            SecOps::InvalidMAC => "Message Authentication Code is corrupted",
            SecOps::ValidRAC => "Random Authentication Code (RAC) Token is genuine/authentic",
            SecOps::InvalidRAC => "Random Authentication Code (RAC) Token is not genuine/authentic",
            SecOps::KeyLengthSane => "Key Length is equal to the length needed by the cryptography algorithm",
            SecOps::KeyTooShort(_) => "Key length too short",
            SecOps::KeyTooLong(_) => "Key Length is too long",
        }
    }

    /// The code that this code names as its cause, if it names one.
    pub fn cause(&self) -> (r: Option<&'static SecOps>)
        ensures
            match r {
                Some(code) => self.named_cause() == Some(*code),
                None => self.named_cause() is None,
            },
    {
        match self {
            SecOps::KeyCorrupted => Some(&SecOps::KeyCorrupted),
            SecOps::KeyAuthentic => Some(&SecOps::KeyAuthentic),
            SecOps::KeyInvalid => Some(&SecOps::KeyInvalid),
            SecOps::TimedOut => Some(&SecOps::TimedOut),
            SecOps::PossibleIdTheft => Some(&SecOps::PossibleIdTheft),
            SecOps::DataCorrupted => Some(&SecOps::DataCorrupted),
            SecOps::DataInvalid => Some(&SecOps::DataInvalid),
            SecOps::Encrypted => Some(&SecOps::Encrypted),
            SecOps::KeyGenSucceded => Some(&SecOps::KeyGenSucceded),
            SecOps::KeyGenFailed => Some(&SecOps::KeyGenFailed),
            SecOps::KeyDeleted => Some(&SecOps::KeyDeleted),
            SecOps::CryptoRandomGenerated => Some(&SecOps::CryptoRandomGenerated),
            SecOps::CryptoRandomGenFailure => Some(&SecOps::CryptoRandomGenFailure),
            SecOps::NonCryptoRandomGenerated => Some(&SecOps::NonCryptoRandomGenFailure),
            SecOps::NonCryptoRandomGenFailure => Some(&SecOps::NonCryptoRandomGenFailure),
            SecOps::AuthenticMAC => Some(&SecOps::AuthenticMAC),
            SecOps::InvalidMAC => Some(&SecOps::InvalidMAC),
            SecOps::ValidRAC => Some(&SecOps::ValidRAC),
            SecOps::InvalidRAC => Some(&SecOps::InvalidRAC),
            SecOps::KeyLengthSane => Some(&SecOps::KeyLengthSane),
            SecOps::KeyTooShort(_) => None,
            SecOps::KeyTooLong(_) => None,
        }
    }
}

impl std::fmt::Display for SecOps {
    /// Writes the description of the code.
    fn fmt(&self, f: &mut std::fmt::Formatter<'_>) -> (r: std::fmt::Result)
        ensures
            r is Ok ==> written(*final(f)) == written(*old(f)) + self.description_text(),
    {
        f.write_str(self.description())
    }
}

/// As an error a code has no source. The cause that it names is a code, not
/// an error object: see `SecOps::cause`.
impl std::error::Error for SecOps {
    /// The text that describes this code.
    #[allow(deprecated)]
    fn description(&self) -> (r: &str)
        ensures
            r@ == self.description_text(),
    {
        SecOps::description(self)
    }
}

/// The length of a key in bytes needed by a cryptography algorithm
/// ### Examples
/// ```
/// # use custom_codes::KeyLength;
/// let foo = KeyLength::Bytes32;
/// assert_eq!(foo, KeyLength::Bytes32);
/// ```
#[derive(Debug, PartialEq, Eq, Structural)]
pub enum KeyLength {
    /// A Key length of 8 bytes
    Bytes8,
    /// A Key length of 16 bytes
    Bytes16,
    /// A Key length of 24 bytes
    Bytes24,
    /// A Key length of 32 bytes
    Bytes32,
    /// A Key length of 64 bytes
    Bytes64,
    /// A Key length of 128 bytes
    Bytes128,
    /// A Key length of 256 bytes
    Bytes256,
    /// A Key length of 512 bytes
    Bytes512,
    /// A Key length of 1024 bytes
    Bytes1024,
    /// A Key length of 2048 bytes
    Bytes2048,
    /// A Key length of 4096 bytes
    Bytes4096,
}

impl Clone for KeyLength {
    /// A clone is equal to what it was made from.
    fn clone(&self) -> (r: Self)
        ensures
            r == *self,
    {
        match self {
            KeyLength::Bytes8 => KeyLength::Bytes8,
            KeyLength::Bytes16 => KeyLength::Bytes16,
            KeyLength::Bytes24 => KeyLength::Bytes24,
            KeyLength::Bytes32 => KeyLength::Bytes32,
            KeyLength::Bytes64 => KeyLength::Bytes64,
            KeyLength::Bytes128 => KeyLength::Bytes128,
            KeyLength::Bytes256 => KeyLength::Bytes256,
            KeyLength::Bytes512 => KeyLength::Bytes512,
            KeyLength::Bytes1024 => KeyLength::Bytes1024,
            KeyLength::Bytes2048 => KeyLength::Bytes2048,
            KeyLength::Bytes4096 => KeyLength::Bytes4096,
        }
    }
}

/// `==` on `KeyLength` is reflexive, symmetric and transitive.
pub proof fn key_length_equality_laws(a: KeyLength, b: KeyLength, c: KeyLength)
    ensures
        a == a,
        a == b ==> b == a,
        a == b && b == c ==> a == c,
{
}

impl KeyLength {
    /// The name of this length, as `Display` writes it.
    pub open spec fn name_text(self) -> Seq<char> {
        match self {
            KeyLength::Bytes8 => "KeyLength::Bytes8"@,
            KeyLength::Bytes16 => "KeyLength::Bytes16"@,
            KeyLength::Bytes24 => "KeyLength::Bytes24"@,
            KeyLength::Bytes32 => "KeyLength::Bytes32"@,
            KeyLength::Bytes64 => "KeyLength::Bytes64"@,
            KeyLength::Bytes128 => "KeyLength::Bytes128"@,
            KeyLength::Bytes256 => "KeyLength::Bytes256"@,
            KeyLength::Bytes512 => "KeyLength::Bytes512"@,
            KeyLength::Bytes1024 => "KeyLength::Bytes1024"@,
            KeyLength::Bytes2048 => "KeyLength::Bytes2048"@,
            KeyLength::Bytes4096 => "KeyLength::Bytes4096"@,
        }
    }

    /// The text that describes a key length as an error: the key is not of
    /// this length.
    pub open spec fn description_text(self) -> Seq<char> {
        match self {
            KeyLength::Bytes8 => "The key is not 8 bytes in length"@,
            KeyLength::Bytes16 => "The key is not 16 bytes in length"@,
            KeyLength::Bytes24 => "The key is not 24 bytes in length"@,
            KeyLength::Bytes32 => "The key is not 32 bytes in length"@,
            KeyLength::Bytes64 => "The key is not 64 bytes in length"@,
            KeyLength::Bytes128 => "The key is not 128 bytes in length"@,
            KeyLength::Bytes256 => "The key is not 256 bytes in length"@,
            KeyLength::Bytes512 => "The key is not 512 bytes in length"@,
            KeyLength::Bytes1024 => "The key is not 1024 bytes in length"@,
            KeyLength::Bytes2048 => "The key is not 2048 bytes in length"@,
            KeyLength::Bytes4096 => "The key is not 4096 bytes in length"@,
        }
    }

    /// The name of this length.
    pub fn name(&self) -> (r: &'static str)
        ensures
            r@ == self.name_text(),
    {
        match self {
            KeyLength::Bytes8 => "KeyLength::Bytes8",
            KeyLength::Bytes16 => "KeyLength::Bytes16",
            KeyLength::Bytes24 => "KeyLength::Bytes24",
            KeyLength::Bytes32 => "KeyLength::Bytes32",
            KeyLength::Bytes64 => "KeyLength::Bytes64",
            KeyLength::Bytes128 => "KeyLength::Bytes128",
            KeyLength::Bytes256 => "KeyLength::Bytes256",
            KeyLength::Bytes512 => "KeyLength::Bytes512",
            KeyLength::Bytes1024 => "KeyLength::Bytes1024",
            KeyLength::Bytes2048 => "KeyLength::Bytes2048",
            KeyLength::Bytes4096 => "KeyLength::Bytes4096",
        }
    }

    /// The text that describes this length as an error.
    pub fn description(&self) -> (r: &'static str)
        ensures
            r@ == self.description_text(),
    {
        match self {
            KeyLength::Bytes8 => "The key is not 8 bytes in length",
            KeyLength::Bytes16 => "The key is not 16 bytes in length",
            KeyLength::Bytes24 => "The key is not 24 bytes in length",
            KeyLength::Bytes32 => "The key is not 32 bytes in length",
            KeyLength::Bytes64 => "The key is not 64 bytes in length",
            KeyLength::Bytes128 => "The key is not 128 bytes in length",
            KeyLength::Bytes256 => "The key is not 256 bytes in length",
            KeyLength::Bytes512 => "The key is not 512 bytes in length",
            KeyLength::Bytes1024 => "The key is not 1024 bytes in length",
            KeyLength::Bytes2048 => "The key is not 2048 bytes in length",
            KeyLength::Bytes4096 => "The key is not 4096 bytes in length",
        }
    }

    /// The length that this length names as its cause: itself.
    pub fn cause(&self) -> (r: Option<&'static KeyLength>)
        ensures
            r == Some(self),
    {
        match self {
            KeyLength::Bytes8 => Some(&KeyLength::Bytes8),
            KeyLength::Bytes16 => Some(&KeyLength::Bytes16),
            KeyLength::Bytes24 => Some(&KeyLength::Bytes24),
            KeyLength::Bytes32 => Some(&KeyLength::Bytes32),
            KeyLength::Bytes64 => Some(&KeyLength::Bytes64),
            KeyLength::Bytes128 => Some(&KeyLength::Bytes128),
            KeyLength::Bytes256 => Some(&KeyLength::Bytes256),
            KeyLength::Bytes512 => Some(&KeyLength::Bytes512),
            KeyLength::Bytes1024 => Some(&KeyLength::Bytes1024),
            KeyLength::Bytes2048 => Some(&KeyLength::Bytes2048),
            KeyLength::Bytes4096 => Some(&KeyLength::Bytes4096),
        }
    }
}

impl std::fmt::Display for KeyLength {
    /// Writes the name of the length.
    fn fmt(&self, f: &mut std::fmt::Formatter<'_>) -> (r: std::fmt::Result)
        ensures
            r is Ok ==> written(*final(f)) == written(*old(f)) + self.name_text(),
    {
        f.write_str(self.name())
    }
}

/// As an error a code has no source. The cause that it names is a code, not
/// an error object: see `KeyLength::cause`.
impl std::error::Error for KeyLength {
    /// The text that describes this code.
    #[allow(deprecated)]
    fn description(&self) -> (r: &str)
        ensures
            r@ == self.description_text(),
    {
        KeyLength::description(self)
    }
}

/// Hardware security access
/// ### Examples
/// ```
/// # use custom_codes::SecHardware;
/// let foo = SecHardware::UsbKeyUp;
/// assert_eq!(foo, SecHardware::UsbKeyUp);
/// ```
#[derive(Debug, PartialEq, Eq, Structural)]
pub enum SecHardware {
    /// USB Stick Hardware Key is available
    UsbKeyUp,
    /// USB Stick Hardware Key is unavailable
    UsbKeyDown,
    /// USB Stick Hardware Key is transmitting,
    UsbKeyDevTxMode,
    /// For receiving updates and is not avaiable for use
    UsbKeyDevRxMode,
    /// Device access denied
    UsbKeyDevAccessDenied,
    /// Fingerprint device is available
    FingerPrintDevUp,
    /// Fingerprint device is unavailable
    FingerPrintDevDown,
    /// Fingerprint device is powered of
    FingerPrintDevPoweredOff,
    /// Fingerprint device is transmitting
    FingerPrintDevTxMode,
    /// For receiving updates and is not avaiable for use
    FingerPrintDevRxMode,
    /// Fingerprint Device access denied
    FingerPrintDevAccessDenied,
    /// Iris scanner is available
    IrisDevUp,
    /// Iris scanner is unavailable
    IrisDevDown,
    /// Iris scanner is powered off
    IrisDevPoweredOff,
    /// Iris scanner is transmitting
    IrisDevTxMode,
    /// For receiving updates and is not avaiable for use
    IrisDevRxMode,
    /// Iris Scanner Device access denied
    IrisDevAccessDenied,
    /// Infra-red device is available
    IrFloodDevUp,
    /// Infra-red device is unavailable
    IrFloodDevDown,
    /// Infra-red device is powered off
    IrFloodDevPoweredOff,
    /// Infra-red device is transmitting
    IrDevTxMode,
    /// For receiving updates and is not avaiable for use
    IrDevRxMode,
    /// Infra-red Device access denied
    IrDevAccessDenied,
    /// Hardware Unspecified
    Unspecified,
}

impl Clone for SecHardware {
    /// A clone is equal to what it was made from.
    fn clone(&self) -> (r: Self)
        ensures
            r == *self,
    {
        match self {
            SecHardware::UsbKeyUp => SecHardware::UsbKeyUp,
            SecHardware::UsbKeyDown => SecHardware::UsbKeyDown,
            SecHardware::UsbKeyDevTxMode => SecHardware::UsbKeyDevTxMode,
            SecHardware::UsbKeyDevRxMode => SecHardware::UsbKeyDevRxMode,
            SecHardware::UsbKeyDevAccessDenied => SecHardware::UsbKeyDevAccessDenied,
            SecHardware::FingerPrintDevUp => SecHardware::FingerPrintDevUp,
            SecHardware::FingerPrintDevDown => SecHardware::FingerPrintDevDown,
            SecHardware::FingerPrintDevPoweredOff => SecHardware::FingerPrintDevPoweredOff,
            SecHardware::FingerPrintDevTxMode => SecHardware::FingerPrintDevTxMode,
            SecHardware::FingerPrintDevRxMode => SecHardware::FingerPrintDevRxMode,
            SecHardware::FingerPrintDevAccessDenied => SecHardware::FingerPrintDevAccessDenied,
            SecHardware::IrisDevUp => SecHardware::IrisDevUp,
            SecHardware::IrisDevDown => SecHardware::IrisDevDown,
            SecHardware::IrisDevPoweredOff => SecHardware::IrisDevPoweredOff,
            SecHardware::IrisDevTxMode => SecHardware::IrisDevTxMode,
            SecHardware::IrisDevRxMode => SecHardware::IrisDevRxMode,
            SecHardware::IrisDevAccessDenied => SecHardware::IrisDevAccessDenied,
            SecHardware::IrFloodDevUp => SecHardware::IrFloodDevUp,
            SecHardware::IrFloodDevDown => SecHardware::IrFloodDevDown,
            SecHardware::IrFloodDevPoweredOff => SecHardware::IrFloodDevPoweredOff,
            SecHardware::IrDevTxMode => SecHardware::IrDevTxMode,
            SecHardware::IrDevRxMode => SecHardware::IrDevRxMode,
            SecHardware::IrDevAccessDenied => SecHardware::IrDevAccessDenied,
            SecHardware::Unspecified => SecHardware::Unspecified,
        }
    }
}

/// `==` on `SecHardware` is reflexive, symmetric and transitive.
pub proof fn sec_hardware_equality_laws(a: SecHardware, b: SecHardware, c: SecHardware)
    ensures
        a == a,
        a == b ==> b == a,
        a == b && b == c ==> a == c,
{
}

} // verus!
