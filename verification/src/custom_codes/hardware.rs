//! Codes for the hardware resources of a physical computer.

use vstd::prelude::*;

verus! {

/// Hardware Resources of a physical computer
/// ### Examples
/// ```
/// # use custom_codes::HardwareResources;
/// let foo = HardwareResources::CpuMaxed;
/// assert_eq!(foo, HardwareResources::CpuMaxed);
/// ```
#[derive(Debug, PartialEq, Eq, Structural)]
pub enum HardwareResources {
    /// CPU is under heavy load
    CpuUnderHeavyLoad,
    /// RAM is under heavy load
    RamUnderHeavyLoad,
    /// CPU is maxed out
    CpuMaxed,
    /// CPU is Overclocked
    CpuOverclocked,
    /// CPU is underclocked eg. to save power
    CpuUnderclocked,
    /// Cpu is idle
    CpuIdle,
    /// CPU heat is normal
    CpuTempOk,
    /// CPU heat is high
    CpuThrottling,
    /// Etherned Card Available for use
    EthernetDevUp,
    /// Ethernet is unavailavle for use
    EthernetDevDown,
    /// Ethernet card accessed by processed
    EthernetDevAccessed,
    /// Carrier chip available
    CarrierDevUp,
    /// Carrier chip unavailable
    CarrierDevDown,
    /// Carrier chip does not exist in hardware
    CarrierDevChipMissing,
    /// Drivers are missing for components listed
    DriverMissing,
    /// Camera or optical module available
    OpticDevUp,
    /// Camera or optical module unavailable
    OpticDevDown,
    /// Camera or optical module accessed
    OpticalDevAccessed,
    /// Camera or optical module access is denied
    OpticalDevAccessDenied,
    /// Camera or optical module powered off
    OpticalDevPoweredOff,
    /// Optical chip does not exist in hardware
    OticalDevChipMissing,
    /// NFC device is available
    NfcDevUp,
    /// NFC device is unavailable
    NfcDevDown,
    /// NFC device is active
    NfcDevActive,
    /// NFC device is paired to other device
    NfcDevPaired,
    /// NFC device is accessed
    NfcDevAccessed,
    /// NFC device access is denied
    NfcDevDenied,
    /// NFC device is closed
    NfcDevClosed,
    /// NFC device is powered of
    NfcDevPoweredOff,
    /// WiFi module avaliable
    WiFiDevUp,
    /// WiFi module unavaliable
    WiFiDevDown,
    /// WiFi module access is denied,
    WiFiDevAccessDenied,
    /// WiFi module powered off
    WiFiDevPoweredOff,
    /// WiFi has been accessed by process
    WiFiDevAccessed,
    /// WiFi is in hotspot mode
    WiFiDevHotSpotMode,
    /// Bluetooth is available
    BluetoothDevUp,
    /// Bluetooth is paired
    BluetoothDevPaired,
    /// Bluetooth device is trusted
    BluetoothDevDevTrusted,
    /// Bluetooth has been untrusted
    BluetoothDevDevUntrusted,
    /// Bluetooth access is denied
    BluetoothDevAccessDenied,
    /// Bluetooth device has been unpaired
    BluetoothDevUnpaired,
    /// Bluetooth is in share mode for data
    BluetoothDevShareMode,
    /// Bluetooth is in audio or data sink
    BluetoothDevSinkMode,
    /// Bluetooth is transmitting
    BluetoothDevTxMode,
    /// Bluetooth is Receiving
    BluetoothDevRxMode,
    /// Bluetooth is closed
    BluetoothDevClosed,
    /// Bluetooth is powered off
    BluetoothDevPowerOff,
    /// Bluetooth is unavailable
    BluetoothDevDown,
    /// USB controller is available
    UsbDevUp,
    /// USB controller is available
    UsbDevDown,
    /// USB controller is powered off
    UsbDevPoweredOff,
    /// USB device has been added
    UsbDevAdded,
    /// USB is transmitting
    UsbDevTxMode,
    /// USB is recieving
    UsbDevRxMode,
    /// USB device has been removed
    UsbDevRemoved,
    /// USB device access is denied
    UsbDevAccessDenied,
    /// GPS module available
    GpsDevUp,
    /// GPS module unavailable
    GpsDevDown,
    /// GPS is transmitting
    GpsDevTxMode,
    /// GPS module receiving
    GpsDevRxmode,
    /// GPS Device access denied
    GpsDevAccessDenied,
    /// The device is in airplane mode
    AirplaneMode,
    /// Hardware not specified
    Unspecified,
}

impl Clone for HardwareResources {
    /// A clone is equal to what it was made from.
    fn clone(&self) -> (r: Self)
        ensures
            r == *self,
    {
        match self {
            HardwareResources::CpuUnderHeavyLoad => HardwareResources::CpuUnderHeavyLoad,
            HardwareResources::RamUnderHeavyLoad => HardwareResources::RamUnderHeavyLoad,
            HardwareResources::CpuMaxed => HardwareResources::CpuMaxed,
            HardwareResources::CpuOverclocked => HardwareResources::CpuOverclocked,
            HardwareResources::CpuUnderclocked => HardwareResources::CpuUnderclocked,
            HardwareResources::CpuIdle => HardwareResources::CpuIdle,
            HardwareResources::CpuTempOk => HardwareResources::CpuTempOk,
            HardwareResources::CpuThrottling => HardwareResources::CpuThrottling,
            HardwareResources::EthernetDevUp => HardwareResources::EthernetDevUp,
            HardwareResources::EthernetDevDown => HardwareResources::EthernetDevDown,
            HardwareResources::EthernetDevAccessed => HardwareResources::EthernetDevAccessed,
            HardwareResources::CarrierDevUp => HardwareResources::CarrierDevUp,
            HardwareResources::CarrierDevDown => HardwareResources::CarrierDevDown,
            HardwareResources::CarrierDevChipMissing => HardwareResources::CarrierDevChipMissing,
            HardwareResources::DriverMissing => HardwareResources::DriverMissing,
            HardwareResources::OpticDevUp => HardwareResources::OpticDevUp,
            HardwareResources::OpticDevDown => HardwareResources::OpticDevDown,
            HardwareResources::OpticalDevAccessed => HardwareResources::OpticalDevAccessed,
            HardwareResources::OpticalDevAccessDenied => HardwareResources::OpticalDevAccessDenied,
            HardwareResources::OpticalDevPoweredOff => HardwareResources::OpticalDevPoweredOff,
            HardwareResources::OticalDevChipMissing => HardwareResources::OticalDevChipMissing,
            HardwareResources::NfcDevUp => HardwareResources::NfcDevUp,
            HardwareResources::NfcDevDown => HardwareResources::NfcDevDown,
            HardwareResources::NfcDevActive => HardwareResources::NfcDevActive,
            HardwareResources::NfcDevPaired => HardwareResources::NfcDevPaired,
            HardwareResources::NfcDevAccessed => HardwareResources::NfcDevAccessed,
            HardwareResources::NfcDevDenied => HardwareResources::NfcDevDenied,
            HardwareResources::NfcDevClosed => HardwareResources::NfcDevClosed,
            HardwareResources::NfcDevPoweredOff => HardwareResources::NfcDevPoweredOff,
            HardwareResources::WiFiDevUp => HardwareResources::WiFiDevUp,
            HardwareResources::WiFiDevDown => HardwareResources::WiFiDevDown,
            HardwareResources::WiFiDevAccessDenied => HardwareResources::WiFiDevAccessDenied,
            HardwareResources::WiFiDevPoweredOff => HardwareResources::WiFiDevPoweredOff,
            HardwareResources::WiFiDevAccessed => HardwareResources::WiFiDevAccessed,
            HardwareResources::WiFiDevHotSpotMode => HardwareResources::WiFiDevHotSpotMode,
            HardwareResources::BluetoothDevUp => HardwareResources::BluetoothDevUp,
            HardwareResources::BluetoothDevPaired => HardwareResources::BluetoothDevPaired,
            HardwareResources::BluetoothDevDevTrusted => HardwareResources::BluetoothDevDevTrusted,
            HardwareResources::BluetoothDevDevUntrusted => HardwareResources::BluetoothDevDevUntrusted,
            HardwareResources::BluetoothDevAccessDenied => HardwareResources::BluetoothDevAccessDenied,
            HardwareResources::BluetoothDevUnpaired => HardwareResources::BluetoothDevUnpaired,
            HardwareResources::BluetoothDevShareMode => HardwareResources::BluetoothDevShareMode,
            HardwareResources::BluetoothDevSinkMode => HardwareResources::BluetoothDevSinkMode,
            HardwareResources::BluetoothDevTxMode => HardwareResources::BluetoothDevTxMode,
            HardwareResources::BluetoothDevRxMode => HardwareResources::BluetoothDevRxMode,
            HardwareResources::BluetoothDevClosed => HardwareResources::BluetoothDevClosed,
            HardwareResources::BluetoothDevPowerOff => HardwareResources::BluetoothDevPowerOff,
            HardwareResources::BluetoothDevDown => HardwareResources::BluetoothDevDown,
            HardwareResources::UsbDevUp => HardwareResources::UsbDevUp,
            HardwareResources::UsbDevDown => HardwareResources::UsbDevDown,
            HardwareResources::UsbDevPoweredOff => HardwareResources::UsbDevPoweredOff,
            HardwareResources::UsbDevAdded => HardwareResources::UsbDevAdded,
            HardwareResources::UsbDevTxMode => HardwareResources::UsbDevTxMode,
            HardwareResources::UsbDevRxMode => HardwareResources::UsbDevRxMode,
            HardwareResources::UsbDevRemoved => HardwareResources::UsbDevRemoved,
            HardwareResources::UsbDevAccessDenied => HardwareResources::UsbDevAccessDenied,
            HardwareResources::GpsDevUp => HardwareResources::GpsDevUp,
            HardwareResources::GpsDevDown => HardwareResources::GpsDevDown,
            HardwareResources::GpsDevTxMode => HardwareResources::GpsDevTxMode,
            HardwareResources::GpsDevRxmode => HardwareResources::GpsDevRxmode,
            HardwareResources::GpsDevAccessDenied => HardwareResources::GpsDevAccessDenied,
            HardwareResources::AirplaneMode => HardwareResources::AirplaneMode,
            HardwareResources::Unspecified => HardwareResources::Unspecified,
        }
    }
}

/// `==` on `HardwareResources` is reflexive, symmetric and transitive.
pub proof fn hardware_resources_equality_laws(a: HardwareResources, b: HardwareResources, c: HardwareResources)
    ensures
        a == a,
        a == b ==> b == a,
        a == b && b == c ==> a == c,
{
}

} // verus!
