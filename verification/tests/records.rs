use gate_abi::consts::MAX_NAME_LENGTH;
use gate_abi::ffi::option::COption;
use gate_abi::ffi::option::OptZero;
use gate_abi::fs::DirEntry;
use gate_abi::fs::FSObjectType;
use gate_abi::fs::FileAttr;
use gate_abi::fs::OpenOptions;
use gate_abi::input::KeyCode;
use gate_abi::input::KeyEvent;
use gate_abi::input::KeyEventKind;
use gate_abi::input::MiceBtnStatus;
use gate_abi::input::MiceEvent;
use gate_abi::input::MouseEventKind;
use gate_abi::mem::MemMapFlags;
use gate_abi::mem::ShmFlags;
use gate_abi::poll::PollEntry;
use gate_abi::poll::PollEvents;
use gate_abi::process::ProcessStdio;
use gate_abi::process::RawContextPriority;
use gate_abi::process::RawPSpawnConfig;
use gate_abi::process::RawTSpawnConfig;
use gate_abi::process::SpawnFlags;
use gate_abi::sockets::LocalSocketAddr;
use gate_abi::sockets::SockCreateKind;
use gate_abi::sockets::SockDomain;
use gate_abi::sockets::SockMsgFlags;
use gate_abi::sockets::SocketAddr;
use gate_abi::sockets::ToSocketAddr;
use gate_abi::syscalls::NEXT_SYSCALL_NUM;
use gate_abi::syscalls::SyscallTable;

#[test]
fn open_options_bits() {
    let o = OpenOptions::from_bits(OpenOptions::WRITE | OpenOptions::CREATE_FILE);
    assert!(o.is_write());
    assert!(o.create_file());
    assert!(!o.is_read());
    assert!(!o.is_write_truncate());
    assert!(!o.create_dir());
    let both = OpenOptions::from_bits(OpenOptions::READ).or(OpenOptions::from_bits(
        OpenOptions::WRITE_TRUNCATE,
    ));
    assert!(both.is_read());
    assert!(both.is_write_truncate());
    assert!(both.contains(OpenOptions::from_bits(OpenOptions::READ)));
}

#[test]
fn file_attr_and_dir_entry() {
    let attrs = FileAttr::new(FSObjectType::File, 512);
    assert_eq!(attrs, FileAttr::new(FSObjectType::File, 512));
    let entry = DirEntry::new("notes.txt", attrs.clone());
    assert_eq!(entry.name_length, 9);
    assert_eq!(&entry.name[..9], b"notes.txt");
    assert!(entry.name[9..].iter().all(|&b| b == 0));
    assert_eq!(entry.attrs, attrs);
}

#[test]
fn dir_entry_full_length_name() {
    let long = "a".repeat(MAX_NAME_LENGTH);
    let entry = DirEntry::new(&long, FileAttr::new(FSObjectType::Directory, 0));
    assert_eq!(entry.name_length, MAX_NAME_LENGTH);
    assert!(entry.name.iter().all(|&b| b == b'a'));
}

#[test]
fn mice_button_bits() {
    let left = MiceBtnStatus::from_bits(MiceBtnStatus::BTN_LEFT);
    let right = MiceBtnStatus::from_bits(MiceBtnStatus::BTN_RIGHT);
    let both = left.or(right);
    assert!(both.contains(left));
    assert!(both.contains(right));
    assert_eq!(both.and(left), left);
    assert!(!left.contains(right));
    let not_left = left.not();
    assert!(!not_left.contains(left));
}

#[test]
fn null_input_events() {
    let m = MiceEvent::null();
    assert!(matches!(m.kind, MouseEventKind::Null));
    assert_eq!(m.x_rel_change, 0);
    assert_eq!(m.y_rel_change, 0);
    assert_eq!(
        m.buttons_status,
        MiceBtnStatus::from_bits(MiceBtnStatus::NO_BUTTONS)
    );
    let k = KeyEvent::null();
    assert!(matches!(k.kind, KeyEventKind::Null));
    assert_eq!(k.code, KeyCode::Null);
}

#[test]
fn mem_flag_sets() {
    let f = MemMapFlags::from_bits_retaining(MemMapFlags::WRITE | MemMapFlags::FIXED);
    assert!(f.contains(MemMapFlags::from_bits_retaining(MemMapFlags::WRITE)));
    assert!(!f.contains(MemMapFlags::from_bits_retaining(
        MemMapFlags::MAP_RESOURCE
    )));
    let g = f.and(MemMapFlags::from_bits_retaining(MemMapFlags::WRITE));
    assert_eq!(g, MemMapFlags::from_bits_retaining(MemMapFlags::WRITE));
    let s = ShmFlags::from_bits_retaining(ShmFlags::LOCAL);
    assert!(s.contains(ShmFlags::from_bits_retaining(ShmFlags::LOCAL)));
    assert_eq!(
        s.or(ShmFlags::from_bits_retaining(0)),
        ShmFlags::from_bits_retaining(1)
    );
}

#[test]
fn poll_event_set_operations() {
    let data = PollEvents::from_bits(PollEvents::DATA_AVAILABLE);
    let write = PollEvents::from_bits(PollEvents::CAN_WRITE);
    let both = data.union(write);
    assert!(both.contains(data));
    assert!(both.intersects(write));
    assert!(!data.intersects(write));
    assert_eq!(both.intersection(data), data);
    assert_eq!(both.difference(data), write);
    assert!(PollEvents::from_bits(PollEvents::NONE).is_empty());
    assert!(!both.is_empty());
    assert!(PollEvents::from_bits(PollEvents::ALL).contains(both));
}

#[test]
fn poll_entry_fields_and_report_slot() {
    let mut entry = PollEntry::new(7, PollEvents::from_bits(PollEvents::DATA_AVAILABLE));
    assert_eq!(entry.resource(), 7);
    assert_eq!(
        entry.events(),
        PollEvents::from_bits(PollEvents::DATA_AVAILABLE)
    );
    assert!(entry.returned_events().is_empty());
    *entry.returned_events_mut() = PollEvents::from_bits(PollEvents::DISCONNECTED);
    assert_eq!(
        entry.returned_events(),
        PollEvents::from_bits(PollEvents::DISCONNECTED)
    );
    assert_eq!(entry.resource(), 7);
}

#[test]
fn process_stdio_roundtrip() {
    let stdio = ProcessStdio::new(Some(1), None, Some(2));
    assert!(matches!(stdio.stdout, COption::Present(1)));
    assert!(matches!(stdio.stdin, COption::Absent));
    assert!(matches!(stdio.stderr, COption::Present(2)));
    assert_eq!(stdio.into_rust(), (Some(1), None, Some(2)));
    assert_eq!(
        ProcessStdio::new(None, None, None).into_rust(),
        (None, None, None)
    );
    // Resource ID zero is a legitimate present value in the tagged encoding.
    assert_eq!(
        ProcessStdio::new(Some(0), None, None).into_rust(),
        (Some(0), None, None)
    );
}

#[test]
fn process_spawn_config_defaults() {
    let cfg = RawPSpawnConfig::new_from_raw(
        OptZero::none(),
        OptZero::none(),
        OptZero::none(),
        SpawnFlags::from_bits(SpawnFlags::CLONE_RESOURCES),
        OptZero::none(),
        RawContextPriority::Default,
        OptZero::none(),
    );
    assert_eq!(cfg.revision, 3);
    assert!(cfg.name.into_option().is_none());
    assert!(cfg.argv.into_option().is_none());
    assert!(cfg.env.into_option().is_none());
    assert!(cfg.stdio.into_option().is_none());
    assert!(cfg.custom_stack_size.into_option().is_none());
    assert_eq!(cfg.priority, RawContextPriority::Default);
}

#[test]
fn thread_spawn_config_fields() {
    let cfg = RawTSpawnConfig::new_from_raw(
        0xdead_0000,
        RawContextPriority::High,
        COption::Present(1),
        OptZero::none(),
    );
    assert_eq!(cfg.revision, 1);
    assert_eq!(cfg.argument_ptr, 0xdead_0000);
    assert_eq!(cfg.priority, RawContextPriority::High);
    assert!(matches!(cfg.cpu, COption::Present(1)));
    assert!(cfg.custom_stack_size.into_option().is_none());
}

#[test]
fn local_socket_addr_layout() {
    let (addr, len) = LocalSocketAddr::new_abstract_from("sock");
    assert_eq!(addr.sin_family, SockDomain::LOCAL as u32);
    assert_eq!(&addr.sin_name[..4], b"sock");
    assert!(addr.sin_name[4..].iter().all(|&b| b == 0));
    assert_eq!(len, 4 + core::mem::size_of::<SocketAddr>());

    let mut raw = [0u8; MAX_NAME_LENGTH];
    raw[0] = b'x';
    let direct = LocalSocketAddr::new(raw);
    assert_eq!(direct.sin_family, LocalSocketAddr::family());
    assert_eq!(direct.sin_name[0], b'x');
}

#[test]
fn socket_flag_sets() {
    let kind = SockCreateKind::from_bits_retaining(
        SockCreateKind::SOCK_SEQPACKET | SockCreateKind::SOCK_NON_BLOCKING,
    );
    assert!(kind.contains(SockCreateKind::from_bits_retaining(
        SockCreateKind::SOCK_NON_BLOCKING
    )));
    let plain = SockCreateKind::from_bits_retaining(SockCreateKind::SOCK_STREAM)
        .or(SockCreateKind::from_bits_retaining(SockCreateKind::SOCK_DGRAM));
    assert_eq!(
        plain,
        SockCreateKind::from_bits_retaining(SockCreateKind::SOCK_DGRAM)
    );

    let msg = SockMsgFlags::from_bits_retaining(SockMsgFlags::DONT_WAIT);
    assert_eq!(msg.into_bits(), 1);
    // DONT_WAIT and PEEK share bit 0 in the wire format as it stands.
    assert_eq!(SockMsgFlags::DONT_WAIT, SockMsgFlags::PEEK);
    assert_eq!(
        msg.and(SockMsgFlags::from_bits_retaining(SockMsgFlags::NONE))
            .into_bits(),
        0
    );
    assert_eq!(msg.not().into_bits(), !1u32);
}

#[test]
fn syscall_numbers_roundtrip() {
    assert_eq!(SyscallTable::SysPExit.number(), 0);
    assert_eq!(SyscallTable::SysFSOpen.number(), 25);
    assert_eq!(SyscallTable::SysSockRecvFrom.number(), 47);
    for n in 0..NEXT_SYSCALL_NUM {
        if n == 13 {
            assert_eq!(SyscallTable::try_from_u16(n), Err(()));
        } else {
            let call = SyscallTable::try_from_u16(n).unwrap();
            assert_eq!(call.number(), n);
        }
    }
    assert_eq!(SyscallTable::try_from_u16(NEXT_SYSCALL_NUM), Err(()));
    assert_eq!(SyscallTable::try_from_u16(u16::MAX), Err(()));
}

#[test]
fn default_records_are_empty() {
    let e: PollEvents = Default::default();
    assert!(e.is_empty());
    let stdio: ProcessStdio = Default::default();
    assert_eq!(stdio.into_rust(), (None, None, None));
}
