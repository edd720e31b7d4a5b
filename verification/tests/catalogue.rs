use custom_codes::{
    AccessStatus, ActivityStatus, ActivityToggle, Cli, Compression, CustomBool, DateTimeOp, DbOps,
    ExecCommand, FileOps, GenericOutcome, HardwareResources, KeyLength, Networking, Outcome,
    SecHardware, SecOps, Subscription,
};

/// Checks on a list of pairwise different values that `==` holds of a value
/// and itself and of no two different positions, in either order, and that a
/// clone equals what it was made from.
fn check_all_different<T: PartialEq + Clone + std::fmt::Debug>(values: &[T]) {
    for (i, a) in values.iter().enumerate() {
        assert_eq!(a.clone(), *a);
        for (j, b) in values.iter().enumerate() {
            assert_eq!(a == b, i == j, "{:?} and {:?}", a, b);
            assert_eq!(a != b, i != j, "{:?} and {:?}", a, b);
            assert_eq!(a == b, b == a);
        }
    }
}

#[test]
fn outcome_states_are_told_apart() {
    let all = vec![
        Outcome::Success,
        Outcome::Failure,
        Outcome::Forward,
    ];
    assert_eq!(all.len(), 3);
    check_all_different(&all);
}

#[test]
fn access_status_states_are_told_apart() {
    let all = vec![
        AccessStatus::Granted,
        AccessStatus::Revoked,
        AccessStatus::Expired,
        AccessStatus::Denied,
        AccessStatus::Rejected,
        AccessStatus::InProgress,
        AccessStatus::AccpetedRAC,
        AccessStatus::RejectedRAC,
        AccessStatus::Unspecified,
    ];
    assert_eq!(all.len(), 9);
    check_all_different(&all);
}

#[test]
fn custom_bool_states_are_told_apart() {
    let all = vec![
        CustomBool::True,
        CustomBool::False,
        CustomBool::Unspecified,
    ];
    assert_eq!(all.len(), 3);
    check_all_different(&all);
}

#[test]
fn db_ops_states_are_told_apart() {
    let all = vec![
        DbOps::RepoCreated,
        DbOps::RepoInitialized,
        DbOps::RepoAlreadyExists,
        DbOps::RepoEmpty,
        DbOps::RepoNotFound,
        DbOps::RepoDropped,
        DbOps::DbIntegrityConsistent,
        DbOps::DbIntegrityCorrupted,
        DbOps::DocumentIntegrityConsistent,
        DbOps::DocumentIntegrityCorrupted,
        DbOps::DbCreated,
        DbOps::DbFound,
        DbOps::DbAlreadyExists,
        DbOps::DbNotFound,
        DbOps::DbEmpty,
        DbOps::DbList(vec![String::from("users"), String::from("orders")]),
        DbOps::DbModified,
        DbOps::DbDropped,
        DbOps::DocumentCreated,
        DbOps::DocumentInserted,
        DbOps::DocumentFound,
        DbOps::DocumentEmpty,
        DbOps::DocumentList(vec![String::from("users"), String::from("orders")]),
        DbOps::DocumentAlreadyExists,
        DbOps::DocumentNotFound,
        DbOps::DocumentModified,
        DbOps::DocumentDropped,
        DbOps::FieldCreated,
        DbOps::FieldInserted,
        DbOps::FieldFound,
        DbOps::FieldAlreadyExists,
        DbOps::FieldNotFound,
        DbOps::FieldContents(vec![1u8, 2, 3]),
        DbOps::FieldList(vec![vec![1u8, 2], vec![3u8]]),
        DbOps::FieldModified,
        DbOps::FieldDropped,
        DbOps::Created,
        DbOps::Commited,
        DbOps::UnCommited,
        DbOps::Inserted,
        DbOps::Changed,
        DbOps::Unchanged,
        DbOps::Skipped,
        DbOps::AlreadyExists,
        DbOps::Modified,
        DbOps::Swapped,
        DbOps::Deleted,
        DbOps::KeyFound,
        DbOps::KeyNotFound,
        DbOps::NotExecuted,
        DbOps::QueryConflictError,
        DbOps::Empty,
        DbOps::Queued,
        DbOps::DeQueued,
        DbOps::CompactionTrue,
        DbOps::CompactionFalse,
        DbOps::ConnRefused,
        DbOps::PortAddrInUse,
        DbOps::DriverError,
        DbOps::RuntimeError,
        DbOps::EncounteredErrors(String::from("disk full")),
        DbOps::PermissionDenied,
        DbOps::ClusterOnline,
        DbOps::ClusterOffline,
        DbOps::ClusterSynced,
        DbOps::ClusterNodeAdded,
        DbOps::ConfigUpdated,
        DbOps::ClusterNodeDropped,
        DbOps::Logged,
        DbOps::NotLogged,
        DbOps::Interrupted,
        DbOps::Unspecified,
    ];
    assert_eq!(all.len(), 72);
    check_all_different(&all);
}

#[test]
fn exec_command_states_are_told_apart() {
    let all = vec![
        ExecCommand::Queued,
        ExecCommand::DeQueued,
        ExecCommand::InProgress,
        ExecCommand::Paused,
        ExecCommand::Frozen,
        ExecCommand::Killed,
        ExecCommand::Executed,
        ExecCommand::Interrupted,
        ExecCommand::Unspecified,
    ];
    assert_eq!(all.len(), 9);
    check_all_different(&all);
}

#[test]
fn file_ops_states_are_told_apart() {
    let all = vec![
        FileOps::DirCreated,
        FileOps::DirAccessDenied,
        FileOps::DirIsReadOnly,
        FileOps::DirectoryAppendOnly,
        FileOps::FileIsReadOnly,
        FileOps::FileIsAppendOnly,
        FileOps::DeletionDenied,
        FileOps::DeletionToBeDone,
        FileOps::ReadDone,
        FileOps::WriteDone,
        FileOps::AlreadyExists,
        FileOps::UpdateDone,
        FileOps::DeletionDone,
        FileOps::ReadInProgress,
        FileOps::WriteInProgess,
        FileOps::UpdateInProgress,
        FileOps::DeletionInProgress,
        FileOps::DirOpened,
        FileOps::DirClosed,
        FileOps::DirModified,
        FileOps::OpenedFile,
        FileOps::ClosedFile,
        FileOps::OpenError,
        FileOps::EncounteredErrors(String::from("disk full")),
        FileOps::CreateDenied,
        FileOps::ReadDenied,
        FileOps::UpdateDenied,
        FileOps::WriteDenied,
        FileOps::AppendDenied,
        FileOps::MetadataAdded,
        FileOps::MetadataNotAvailable,
        FileOps::MetadataChanged,
        FileOps::MetadataDeleted,
        FileOps::OpenTrue,
        FileOps::OpenFalse,
        FileOps::CreateTrue,
        FileOps::CreateFalse,
        FileOps::WriteTrue,
        FileOps::WriteFalse,
        FileOps::AppendTrue,
        FileOps::Interrupted,
        FileOps::DeleteTrue,
    ];
    assert_eq!(all.len(), 42);
    check_all_different(&all);
}

#[test]
fn compression_states_are_told_apart() {
    let all = vec![
        Compression::Done,
        Compression::InProgress,
        Compression::AlreadyCompressed,
        Compression::Impossible,
        Compression::ToBeDone,
        Compression::StreamCompress,
        Compression::Interrupted,
        Compression::Unspecified,
    ];
    assert_eq!(all.len(), 8);
    check_all_different(&all);
}

#[test]
fn subscription_states_are_told_apart() {
    let all = vec![
        Subscription::Subscribed,
        Subscription::Unsubscribed,
        Subscription::NotActivated,
        Subscription::Unspecified,
    ];
    assert_eq!(all.len(), 4);
    check_all_different(&all);
}

#[test]
fn activity_status_states_are_told_apart() {
    let all = vec![
        ActivityStatus::Activated,
        ActivityStatus::Deactivated,
        ActivityStatus::Unspecified,
    ];
    assert_eq!(all.len(), 3);
    check_all_different(&all);
}

#[test]
fn activity_toggle_states_are_told_apart() {
    let all = vec![
        ActivityToggle::Activate,
        ActivityToggle::Deactivate,
        ActivityToggle::Unspecified,
    ];
    assert_eq!(all.len(), 3);
    check_all_different(&all);
}

#[test]
fn cli_states_are_told_apart() {
    let all = vec![
        Cli::ParseInProgress,
        Cli::ParseArgs,
        Cli::ArgFieldParseInPorgress,
        Cli::ParsedArgField,
        Cli::ParseAsync,
        Cli::ArgFieldAsyncParseInPorgress,
        Cli::NotEnoughArgs,
        Cli::EncounteredErrors(String::from("disk full")),
    ];
    assert_eq!(all.len(), 8);
    check_all_different(&all);
}

#[test]
fn date_time_op_states_are_told_apart() {
    let all = vec![
        DateTimeOp::DateCreated,
        DateTimeOp::DateDeleted,
        DateTimeOp::DateModified,
        DateTimeOp::DateUnspecified,
        DateTimeOp::TimeCreated,
        DateTimeOp::TimeDeleted,
        DateTimeOp::TimeModified,
        DateTimeOp::TimeUnspecified,
        DateTimeOp::DateTimeUnspecified,
    ];
    assert_eq!(all.len(), 9);
    check_all_different(&all);
}

#[test]
fn sec_ops_states_are_told_apart() {
    let all = vec![
        SecOps::KeyCorrupted,
        SecOps::KeyAuthentic,
        SecOps::KeyInvalid,
        SecOps::TimedOut,
        SecOps::PossibleIdTheft,
        SecOps::DataCorrupted,
        SecOps::DataInvalid,
        SecOps::Encrypted,
        SecOps::KeyGenSucceded,
        SecOps::KeyGenFailed,
        SecOps::KeyDeleted,
        SecOps::CryptoRandomGenerated,
        SecOps::CryptoRandomGenFailure,
        SecOps::NonCryptoRandomGenerated,
        SecOps::NonCryptoRandomGenFailure,
        SecOps::AuthenticMAC,
        SecOps::InvalidMAC,
        SecOps::ValidRAC,
        SecOps::InvalidRAC,
        SecOps::KeyLengthSane,
        SecOps::KeyTooShort(KeyLength::Bytes32),
        SecOps::KeyTooLong(KeyLength::Bytes32),
    ];
    assert_eq!(all.len(), 22);
    check_all_different(&all);
}

#[test]
fn key_length_states_are_told_apart() {
    let all = vec![
        KeyLength::Bytes8,
        KeyLength::Bytes16,
        KeyLength::Bytes24,
        KeyLength::Bytes32,
        KeyLength::Bytes64,
        KeyLength::Bytes128,
        KeyLength::Bytes256,
        KeyLength::Bytes512,
        KeyLength::Bytes1024,
        KeyLength::Bytes2048,
        KeyLength::Bytes4096,
    ];
    assert_eq!(all.len(), 11);
    check_all_different(&all);
}

#[test]
fn hardware_resources_states_are_told_apart() {
    let all = vec![
        HardwareResources::CpuUnderHeavyLoad,
        HardwareResources::RamUnderHeavyLoad,
        HardwareResources::CpuMaxed,
        HardwareResources::CpuOverclocked,
        HardwareResources::CpuUnderclocked,
        HardwareResources::CpuIdle,
        HardwareResources::CpuTempOk,
        HardwareResources::CpuThrottling,
        HardwareResources::EthernetDevUp,
        HardwareResources::EthernetDevDown,
        HardwareResources::EthernetDevAccessed,
        HardwareResources::CarrierDevUp,
        HardwareResources::CarrierDevDown,
        HardwareResources::CarrierDevChipMissing,
        HardwareResources::DriverMissing,
        HardwareResources::OpticDevUp,
        HardwareResources::OpticDevDown,
        HardwareResources::OpticalDevAccessed,
        HardwareResources::OpticalDevAccessDenied,
        HardwareResources::OpticalDevPoweredOff,
        HardwareResources::OticalDevChipMissing,
        HardwareResources::NfcDevUp,
        HardwareResources::NfcDevDown,
        HardwareResources::NfcDevActive,
        HardwareResources::NfcDevPaired,
        HardwareResources::NfcDevAccessed,
        HardwareResources::NfcDevDenied,
        HardwareResources::NfcDevClosed,
        HardwareResources::NfcDevPoweredOff,
        HardwareResources::WiFiDevUp,
        HardwareResources::WiFiDevDown,
        HardwareResources::WiFiDevAccessDenied,
        HardwareResources::WiFiDevPoweredOff,
        HardwareResources::WiFiDevAccessed,
        HardwareResources::WiFiDevHotSpotMode,
        HardwareResources::BluetoothDevUp,
        HardwareResources::BluetoothDevPaired,
        HardwareResources::BluetoothDevDevTrusted,
        HardwareResources::BluetoothDevDevUntrusted,
        HardwareResources::BluetoothDevAccessDenied,
        HardwareResources::BluetoothDevUnpaired,
        HardwareResources::BluetoothDevShareMode,
        HardwareResources::BluetoothDevSinkMode,
        HardwareResources::BluetoothDevTxMode,
        HardwareResources::BluetoothDevRxMode,
        HardwareResources::BluetoothDevClosed,
        HardwareResources::BluetoothDevPowerOff,
        HardwareResources::BluetoothDevDown,
        HardwareResources::UsbDevUp,
        HardwareResources::UsbDevDown,
        HardwareResources::UsbDevPoweredOff,
        HardwareResources::UsbDevAdded,
        HardwareResources::UsbDevTxMode,
        HardwareResources::UsbDevRxMode,
        HardwareResources::UsbDevRemoved,
        HardwareResources::UsbDevAccessDenied,
        HardwareResources::GpsDevUp,
        HardwareResources::GpsDevDown,
        HardwareResources::GpsDevTxMode,
        HardwareResources::GpsDevRxmode,
        HardwareResources::GpsDevAccessDenied,
        HardwareResources::AirplaneMode,
        HardwareResources::Unspecified,
    ];
    assert_eq!(all.len(), 63);
    check_all_different(&all);
}

#[test]
fn networking_states_are_told_apart() {
    let all = vec![
        Networking::NetworkAccessDenied,
        Networking::HostUnreachable,
        Networking::ConnectionReset,
        Networking::ConnectionAborted,
        Networking::NotConnected,
        Networking::HeadersCorrupted,
        Networking::ServerNotResponding,
        Networking::IpInUse,
        Networking::PortInUse,
        Networking::AddrInUse,
        Networking::IpAvailable,
        Networking::BrokenPipe,
        Networking::NetConnExists,
        Networking::InvalidNetInput,
        Networking::InvalidNetData,
        Networking::NetTimedOut,
        Networking::Interrupted,
        Networking::UnexpectedNetEof,
        Networking::NetDriverBuggy,
        Networking::Unspecified,
    ];
    assert_eq!(all.len(), 20);
    check_all_different(&all);
}

#[test]
fn sec_hardware_states_are_told_apart() {
    let all = vec![
        SecHardware::UsbKeyUp,
        SecHardware::UsbKeyDown,
        SecHardware::UsbKeyDevTxMode,
        SecHardware::UsbKeyDevRxMode,
        SecHardware::UsbKeyDevAccessDenied,
        SecHardware::FingerPrintDevUp,
        SecHardware::FingerPrintDevDown,
        SecHardware::FingerPrintDevPoweredOff,
        SecHardware::FingerPrintDevTxMode,
        SecHardware::FingerPrintDevRxMode,
        SecHardware::FingerPrintDevAccessDenied,
        SecHardware::IrisDevUp,
        SecHardware::IrisDevDown,
        SecHardware::IrisDevPoweredOff,
        SecHardware::IrisDevTxMode,
        SecHardware::IrisDevRxMode,
        SecHardware::IrisDevAccessDenied,
        SecHardware::IrFloodDevUp,
        SecHardware::IrFloodDevDown,
        SecHardware::IrFloodDevPoweredOff,
        SecHardware::IrDevTxMode,
        SecHardware::IrDevRxMode,
        SecHardware::IrDevAccessDenied,
        SecHardware::Unspecified,
    ];
    assert_eq!(all.len(), 24);
    check_all_different(&all);
}

#[test]
fn generic_outcome_states_are_told_apart() {
    let all = vec![
        GenericOutcome::Success("done"),
        GenericOutcome::Failure("done"),
        GenericOutcome::Forward("done"),
        GenericOutcome::Success("other"),
        GenericOutcome::Failure("other"),
        GenericOutcome::Forward("other"),
    ];
    check_all_different(&all);
}

#[test]
fn generic_outcome_compares_its_reason() {
    assert_eq!(GenericOutcome::Success(String::from("Foo")), GenericOutcome::Success(String::from("Foo")));
    assert_ne!(GenericOutcome::Success(1u8), GenericOutcome::Success(2u8));
    assert_ne!(GenericOutcome::Failure(vec![1u8]), GenericOutcome::Failure(vec![]));
    assert_eq!(GenericOutcome::Forward(()), GenericOutcome::Forward(()));
}

#[test]
fn equality_is_transitive_on_payloads() {
    let a = DbOps::EncounteredErrors(String::from("timeout"));
    let b = DbOps::EncounteredErrors(String::from("time") + "out");
    let c = DbOps::EncounteredErrors("timeout".to_string());
    assert!(a == b && b == c && a == c);
    let x = FileOps::EncounteredErrors(String::from("locked"));
    let y = x.clone();
    let z = y.clone();
    assert!(x == y && y == z && x == z);
}

#[test]
fn encountered_errors_with_different_reasons_are_unequal() {
    assert_ne!(
        DbOps::EncounteredErrors(String::from("no route")),
        DbOps::EncounteredErrors(String::from("timeout"))
    );
    assert_ne!(
        FileOps::EncounteredErrors(String::from("no space")),
        FileOps::EncounteredErrors(String::from("no spac"))
    );
    assert_ne!(
        Cli::EncounteredErrors(String::from("--x")),
        Cli::EncounteredErrors(String::from("--y"))
    );
    assert_ne!(Cli::EncounteredErrors(String::new()), Cli::EncounteredErrors(String::from(" ")));
}

#[test]
fn encountered_errors_with_the_same_reason_are_equal() {
    assert_eq!(
        DbOps::EncounteredErrors(String::from("timeout")),
        DbOps::EncounteredErrors(String::from("timeout"))
    );
    assert_eq!(FileOps::EncounteredErrors(String::new()), FileOps::EncounteredErrors(String::new()));
    assert_eq!(
        Cli::EncounteredErrors(String::from("bad flag")),
        Cli::EncounteredErrors(String::from("bad flag"))
    );
}

#[test]
fn database_lists_are_compared_name_by_name() {
    let names = |v: &[&str]| v.iter().map(|s| s.to_string()).collect::<Vec<String>>();
    assert_eq!(DbOps::DbList(names(&["a", "b"])), DbOps::DbList(names(&["a", "b"])));
    assert_eq!(DbOps::DbList(names(&[])), DbOps::DbList(names(&[])));
    assert_ne!(DbOps::DbList(names(&["a", "b"])), DbOps::DbList(names(&["b", "a"])));
    assert_ne!(DbOps::DbList(names(&["a", "b"])), DbOps::DbList(names(&["a"])));
    assert_ne!(DbOps::DbList(names(&["a"])), DbOps::DbList(names(&["a", "b"])));
    assert_ne!(DbOps::DbList(names(&["a", "b"])), DbOps::DbList(names(&["a", "c"])));
    assert_ne!(DbOps::DbList(names(&["a"])), DbOps::DocumentList(names(&["a"])));
    assert_eq!(DbOps::DocumentList(names(&["x"])), DbOps::DocumentList(names(&["x"])));
    assert_ne!(DbOps::DocumentList(names(&["x"])), DbOps::DocumentList(names(&["y"])));
}

#[test]
fn field_contents_are_compared_byte_by_byte() {
    assert_eq!(DbOps::FieldContents(vec![0, 255, 7]), DbOps::FieldContents(vec![0, 255, 7]));
    assert_eq!(DbOps::FieldContents(vec![]), DbOps::FieldContents(vec![]));
    assert_ne!(DbOps::FieldContents(vec![0, 255, 7]), DbOps::FieldContents(vec![0, 255, 8]));
    assert_ne!(DbOps::FieldContents(vec![1, 255, 7]), DbOps::FieldContents(vec![0, 255, 7]));
    assert_ne!(DbOps::FieldContents(vec![0, 255]), DbOps::FieldContents(vec![0, 255, 7]));
    assert_ne!(DbOps::FieldContents(vec![0, 255, 7]), DbOps::FieldContents(vec![0, 255]));
}

#[test]
fn field_lists_are_compared_field_by_field() {
    assert_eq!(
        DbOps::FieldList(vec![vec![1, 2], vec![], vec![3]]),
        DbOps::FieldList(vec![vec![1, 2], vec![], vec![3]])
    );
    assert_eq!(DbOps::FieldList(vec![]), DbOps::FieldList(vec![]));
    assert_ne!(DbOps::FieldList(vec![vec![]]), DbOps::FieldList(vec![]));
    assert_ne!(DbOps::FieldList(vec![vec![1, 2], vec![3]]), DbOps::FieldList(vec![vec![1], vec![2, 3]]));
    assert_ne!(DbOps::FieldList(vec![vec![1, 2], vec![3]]), DbOps::FieldList(vec![vec![1, 2], vec![4]]));
    assert_ne!(DbOps::FieldList(vec![vec![1]]), DbOps::FieldContents(vec![1]));
}

#[test]
fn key_length_is_part_of_a_security_code() {
    assert_eq!(SecOps::KeyTooShort(KeyLength::Bytes16), SecOps::KeyTooShort(KeyLength::Bytes16));
    assert_ne!(SecOps::KeyTooShort(KeyLength::Bytes16), SecOps::KeyTooShort(KeyLength::Bytes32));
    assert_ne!(SecOps::KeyTooShort(KeyLength::Bytes16), SecOps::KeyTooLong(KeyLength::Bytes16));
    assert_eq!(SecOps::KeyTooLong(KeyLength::Bytes4096), SecOps::KeyTooLong(KeyLength::Bytes4096));
}

#[test]
fn debug_gives_the_name_of_the_state() {
    assert_eq!(format!("{:?}", Outcome::Forward), "Forward");
    assert_eq!(format!("{:?}", FileOps::DirAccessDenied), "DirAccessDenied");
    assert_eq!(format!("{:?}", Networking::HostUnreachable), "HostUnreachable");
    assert_eq!(format!("{:?}", HardwareResources::CpuMaxed), "CpuMaxed");
    assert_eq!(format!("{:?}", SecHardware::UsbKeyUp), "UsbKeyUp");
    assert_eq!(format!("{:?}", KeyLength::Bytes32), "Bytes32");
    assert_eq!(format!("{:?}", SecOps::KeyTooLong(KeyLength::Bytes8)), "KeyTooLong(Bytes8)");
    assert_eq!(format!("{:?}", GenericOutcome::Success("Foo")), "Success(\"Foo\")");
    assert_eq!(
        format!("{:?}", DbOps::EncounteredErrors(String::from("x"))),
        "EncounteredErrors(\"x\")"
    );
    assert_eq!(format!("{:?}", DbOps::FieldContents(vec![1, 2])), "FieldContents([1, 2])");
    assert_eq!(format!("{:?}", Cli::ParseInProgress), "ParseInProgress");
    assert_eq!(format!("{:?}", DateTimeOp::DateCreated), "DateCreated");
    assert_eq!(format!("{:?}", ExecCommand::Queued), "Queued");
    assert_eq!(format!("{:?}", Compression::Done), "Done");
    assert_eq!(format!("{:?}", Subscription::Subscribed), "Subscribed");
    assert_eq!(format!("{:?}", ActivityStatus::Activated), "Activated");
    assert_eq!(format!("{:?}", ActivityToggle::Activate), "Activate");
    assert_eq!(format!("{:?}", AccessStatus::Granted), "Granted");
    assert_eq!(format!("{:?}", CustomBool::Unspecified), "Unspecified");
}

#[test]
fn security_codes_describe_themselves() {
    let table = [
        (SecOps::KeyCorrupted, "Key could not be verified as it did not finish streaming"),
        (SecOps::KeyAuthentic, "Key Authentic and approved"),
        (SecOps::KeyInvalid, "Key has been tampered with"),
        (SecOps::TimedOut, "Timed Out while verification was in progress"),
        (SecOps::PossibleIdTheft, "Possible Identity Forgery"),
        (SecOps::DataCorrupted, "Data encrypted has been corrupted"),
        (SecOps::DataInvalid, "Data has been tampered with"),
        (SecOps::Encrypted, "Data has been encrypted"),
        (SecOps::KeyGenSucceded, "Key generation successful"),
        (SecOps::KeyGenFailed, "Key generation failed"),
        (SecOps::KeyDeleted, "Key has been deleted"),
        (SecOps::CryptoRandomGenerated, "random data generated from Cryptographically Secure PRNG (CSPRNG)"),
        (SecOps::CryptoRandomGenFailure, "random data generated from Cryptographically Secure PRNG (CSPRNG) was not generated"),
        (SecOps::NonCryptoRandomGenerated, "random data generated from Noncryptographic PRNG"),
        (SecOps::NonCryptoRandomGenFailure, "random data generated from Noncryptographic PRNG was not generated"),
        (SecOps::AuthenticMAC, "Message Authentication Code is authentic"),
        (SecOps::InvalidMAC, "Message Authentication Code is corrupted"),
        (SecOps::ValidRAC, "Random Authentication Code (RAC) Token is genuine/authentic"),
        (SecOps::InvalidRAC, "Random Authentication Code (RAC) Token is not genuine/authentic"),
        (SecOps::KeyLengthSane, "Key Length is equal to the length needed by the cryptography algorithm"),
        (SecOps::KeyTooShort(KeyLength::Bytes32), "Key length too short"),
        (SecOps::KeyTooLong(KeyLength::Bytes32), "Key Length is too long"),
    ];
    assert_eq!(table.len(), 22);
    for (code, text) in &table {
        assert_eq!(code.description(), *text);
        assert_eq!(code.to_string(), *text);
        assert_eq!(format!("{}", code), *text);
    }
}

#[test]
#[allow(deprecated)]
fn security_codes_describe_themselves_as_errors() {
    let code: Box<dyn std::error::Error> = Box::new(SecOps::InvalidMAC);
    assert_eq!(code.description(), "Message Authentication Code is corrupted");
    assert_eq!(code.to_string(), "Message Authentication Code is corrupted");
    assert!(code.source().is_none());
    let length: Box<dyn std::error::Error> = Box::new(KeyLength::Bytes24);
    assert_eq!(length.description(), "The key is not 24 bytes in length");
    assert_eq!(length.to_string(), "KeyLength::Bytes24");
    assert!(length.source().is_none());
}

#[test]
fn a_security_code_names_itself_as_its_cause() {
    let all = [
        SecOps::KeyCorrupted,
        SecOps::KeyAuthentic,
        SecOps::KeyInvalid,
        SecOps::TimedOut,
        SecOps::PossibleIdTheft,
        SecOps::DataCorrupted,
        SecOps::DataInvalid,
        SecOps::Encrypted,
        SecOps::KeyGenSucceded,
        SecOps::KeyGenFailed,
        SecOps::KeyDeleted,
        SecOps::CryptoRandomGenerated,
        SecOps::CryptoRandomGenFailure,
        SecOps::NonCryptoRandomGenFailure,
        SecOps::AuthenticMAC,
        SecOps::InvalidMAC,
        SecOps::ValidRAC,
        SecOps::InvalidRAC,
        SecOps::KeyLengthSane,
    ];
    assert_eq!(all.len(), 19);
    for code in &all {
        assert_eq!(code.cause(), Some(code));
    }
}

#[test]
fn generated_random_data_names_the_failure_as_its_cause() {
    assert_eq!(
        SecOps::NonCryptoRandomGenerated.cause(),
        Some(&SecOps::NonCryptoRandomGenFailure)
    );
    assert_eq!(
        SecOps::CryptoRandomGenerated.cause(),
        Some(&SecOps::CryptoRandomGenerated)
    );
}

#[test]
fn a_key_length_code_names_no_cause() {
    assert_eq!(SecOps::KeyTooShort(KeyLength::Bytes8).cause(), None);
    assert_eq!(SecOps::KeyTooLong(KeyLength::Bytes8).cause(), None);
    assert_eq!(SecOps::KeyTooLong(KeyLength::Bytes4096).cause(), None);
}

#[test]
fn key_lengths_name_and_describe_themselves() {
    let table = [
        (KeyLength::Bytes8, "KeyLength::Bytes8", "The key is not 8 bytes in length"),
        (KeyLength::Bytes16, "KeyLength::Bytes16", "The key is not 16 bytes in length"),
        (KeyLength::Bytes24, "KeyLength::Bytes24", "The key is not 24 bytes in length"),
        (KeyLength::Bytes32, "KeyLength::Bytes32", "The key is not 32 bytes in length"),
        (KeyLength::Bytes64, "KeyLength::Bytes64", "The key is not 64 bytes in length"),
        (KeyLength::Bytes128, "KeyLength::Bytes128", "The key is not 128 bytes in length"),
        (KeyLength::Bytes256, "KeyLength::Bytes256", "The key is not 256 bytes in length"),
        (KeyLength::Bytes512, "KeyLength::Bytes512", "The key is not 512 bytes in length"),
        (KeyLength::Bytes1024, "KeyLength::Bytes1024", "The key is not 1024 bytes in length"),
        (KeyLength::Bytes2048, "KeyLength::Bytes2048", "The key is not 2048 bytes in length"),
        (KeyLength::Bytes4096, "KeyLength::Bytes4096", "The key is not 4096 bytes in length"),
    ];
    assert_eq!(table.len(), 11);
    for (length, name, text) in &table {
        assert_eq!(length.name(), *name);
        assert_eq!(length.to_string(), *name);
        assert_eq!(length.description(), *text);
        assert_eq!(length.cause(), Some(length));
    }
}
