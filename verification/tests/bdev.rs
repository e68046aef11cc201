use control_plane::bdev::loopback::{segments, BdevError, Loopback};
use control_plane::bdev::nexus::{
    instances, nexus_children_to_destroying_state, nexus_instance_new, resv_reply, share_protocol,
    share_reply, ChildState, Code, JsonRpcError, Nexus, NexusChild, NexusError, NexusModule,
    NexusShareReply, Reserved, ShareProtocol, Shared,
};
use control_plane::string_map::StringMap;
use control_plane::bdev::null_ng::{
    module_init, register, IoType, NullIoChannelData, NullIoDevice, Submission,
};

const URI: &str = "loopback:///malloc0";

fn pair(key: &str, value: &str) -> (String, String) {
    (String::from(key), String::from(value))
}

fn map(pairs: Vec<(String, String)>) -> StringMap {
    StringMap::from_pairs(&pairs)
}

fn strings(parts: &[&str]) -> Vec<String> {
    parts.iter().map(|part| String::from(*part)).collect()
}

#[test]
fn a_loopback_device_is_read_from_its_uri() {
    assert_eq!(
        Loopback::try_from(URI, &strings(&["malloc0"]), &map(vec![])),
        Ok(Loopback { name: String::from("malloc0"), alias: String::from(URI), uuid: None })
    );
    assert_eq!(
        Loopback::try_from(
            "loopback:///a/b?uuid=a1a2a3a4-b1b2-c1c2-d1d2-d3d4d5d6d7d8",
            &strings(&["a", "b"]),
            &map(vec![pair("uuid", "a1a2a3a4-b1b2-c1c2-d1d2-d3d4d5d6d7d8")])
        ),
        Ok(Loopback {
            name: String::from("a/b"),
            alias: String::from("loopback:///a/b?uuid=a1a2a3a4-b1b2-c1c2-d1d2-d3d4d5d6d7d8"),
            uuid: Some(0xa1a2a3a4b1b2c1c2d1d2d3d4d5d6d7d8),
        })
    );
    assert_eq!(
        Loopback::try_from(
            URI,
            &strings(&["malloc0"]),
            &map(vec![pair("uuid", "nonsense"), pair("uuid", "A1A2A3A4B1B2C1C2D1D2D3D4D5D6D7D8")])
        )
        .unwrap()
        .uuid,
        Some(0xa1a2a3a4b1b2c1c2d1d2d3d4d5d6d7d8)
    );
}

#[test]
fn a_loopback_uri_must_name_a_device_and_nothing_unknown() {
    assert_eq!(
        Loopback::try_from(URI, &vec![], &map(vec![pair("uuid", "nonsense"), pair("size", "1")])),
        Err(BdevError::InvalidUri {
            uri: String::from(URI),
            message: String::from("no path segments"),
        })
    );
    assert_eq!(
        Loopback::try_from(URI, &strings(&["malloc0"]), &map(vec![pair("size", "1"), pair("uuid", "nonsense")])),
        Err(BdevError::UuidParamParseFailed { uri: String::from(URI) })
    );
    assert_eq!(
        Loopback::try_from(URI, &strings(&["malloc0"]), &map(vec![pair("uuid", "")])),
        Err(BdevError::UuidParamParseFailed { uri: String::from(URI) })
    );
    assert_eq!(
        Loopback::try_from(
            URI,
            &strings(&["malloc0"]),
            &map(vec![
                pair("uuid", "a1a2a3a4-b1b2-c1c2-d1d2-d3d4d5d6d7d8"),
                pair("size", "1"),
                pair("blk", "512"),
            ])
        ),
        Err(BdevError::InvalidUri {
            uri: String::from(URI),
            message: String::from("unrecognized parameter(s): size=1"),
        })
    );
    assert_eq!(
        Loopback::from_parts(URI, &strings(&["malloc0"]), &map(vec![]), Some(7)).unwrap().uuid,
        None
    );
    assert_eq!(
        Loopback::from_parts(URI, &strings(&["malloc0"]), &map(vec![pair("uuid", "seven")]), Some(7))
            .unwrap()
            .uuid,
        Some(7)
    );
}

#[test]
fn a_path_of_one_empty_segment_has_none() {
    assert_eq!(segments(strings(&[""])), Vec::<String>::new());
    assert_eq!(segments(vec![]), Vec::<String>::new());
    assert_eq!(segments(strings(&["malloc0"])), strings(&["malloc0"]));
    assert_eq!(segments(strings(&["", ""])), strings(&["", ""]));
    assert_eq!(segments(strings(&["a", ""])), strings(&["a", ""]));
}

#[test]
fn a_loopback_device_needs_the_device_it_names() {
    let any = Loopback { name: String::from("malloc0"), alias: String::from(URI), uuid: None };
    assert_eq!(any.get_name(), "malloc0");
    assert_eq!(any.create(Some(1)), Ok(String::from("malloc0")));
    assert_eq!(any.create(None), Err(BdevError::BdevNotFound { name: String::from("malloc0") }));
    let one = Loopback { name: String::from("malloc0"), alias: String::from(URI), uuid: Some(1) };
    assert_eq!(one.create(Some(1)), Ok(String::from("malloc0")));
    assert_eq!(
        one.create(Some(2)),
        Err(BdevError::BdevWrongUuid {
            name: String::from("malloc0"),
            uuid: String::from("00000000-0000-0000-0000-000000000002"),
        })
    );
    assert_eq!(one.create(None), Err(BdevError::BdevNotFound { name: String::from("malloc0") }));
}

#[test]
fn a_nexus_is_shared_over_nvmf_or_iscsi() {
    assert_eq!(share_protocol("nvmf"), Ok(ShareProtocol::Nvmf));
    assert_eq!(share_protocol("iscsi"), Ok(ShareProtocol::Iscsi));
    for other in ["", "nbd", "NVMF", "nvmf "] {
        assert_eq!(
            share_protocol(other),
            Err(JsonRpcError { code: Code::InvalidParams, message: String::from("invalid protocol") })
        );
    }
    assert_eq!(
        share_reply(Shared::Missing),
        Err(JsonRpcError { code: Code::NotFound, message: String::from("bdev not found") })
    );
    assert_eq!(
        share_reply(Shared::Failed(String::from("no target"))),
        Err(JsonRpcError { code: Code::InternalError, message: String::from("no target") })
    );
    assert_eq!(
        share_reply(Shared::Done(String::from("nqn"), Some(String::from("nvmf://n1/nqn")))),
        Ok(NexusShareReply { uri: String::from("nvmf://n1/nqn") })
    );
    assert_eq!(
        share_reply(Shared::Done(String::from("nqn"), None)),
        Ok(NexusShareReply { uri: String::from("nqn") })
    );
}

#[test]
fn reservations_report_why_they_failed() {
    let nexus = Nexus::new(String::from("nexus0"), 1024, &strings(&["a"]));
    assert_eq!(nexus.resv_register(Reserved::Done), Ok(()));
    assert_eq!(nexus.resv_register(Reserved::NoHandle), Err(NexusError::FailedGetHandle));
    assert_eq!(
        nexus.resv_register(Reserved::Refused(String::from("conflict"))),
        Err(NexusError::FailedResvRegister {
            name: String::from("nexus0"),
            source: String::from("conflict"),
        })
    );
    assert_eq!(nexus.resv_acquire(Reserved::Done), Ok(()));
    assert_eq!(nexus.resv_acquire(Reserved::NoHandle), Err(NexusError::FailedGetHandle));
    assert_eq!(
        nexus.resv_acquire(Reserved::Refused(String::from("conflict"))),
        Err(NexusError::FailedResvAcquire {
            name: String::from("nexus0"),
            source: String::from("conflict"),
        })
    );
    assert_eq!(resv_reply(Some(Ok(()))), Ok(()));
    assert_eq!(
        resv_reply(None),
        Err(JsonRpcError { code: Code::NotFound, message: String::from("nexus not found") })
    );
    assert_eq!(
        resv_reply(Some(Err(String::from("conflict")))),
        Err(JsonRpcError { code: Code::InternalError, message: String::from("conflict") })
    );
}

#[test]
fn nexuses_are_kept_in_the_order_they_were_made() {
    let mut module = NexusModule::new();
    assert!(instances(&mut module).is_empty());
    nexus_instance_new(&mut module, String::from("nexus0"), 1024, strings(&["a", "b"]));
    nexus_instance_new(&mut module, String::from("nexus1"), 2048, vec![]);
    assert_eq!(
        instances(&mut module),
        &vec![
            Nexus {
                name: String::from("nexus0"),
                size: 1024,
                children: vec![
                    NexusChild { name: String::from("a"), state: ChildState::Init },
                    NexusChild { name: String::from("b"), state: ChildState::Init },
                ],
            },
            Nexus { name: String::from("nexus1"), size: 2048, children: vec![] },
        ]
    );
    instances(&mut module)[0].children[1].state = ChildState::Open;
    nexus_children_to_destroying_state(&mut module);
    assert_eq!(
        instances(&mut module),
        &vec![
            Nexus {
                name: String::from("nexus0"),
                size: 1024,
                children: vec![
                    NexusChild { name: String::from("a"), state: ChildState::Destroying },
                    NexusChild { name: String::from("b"), state: ChildState::Destroying },
                ],
            },
            Nexus { name: String::from("nexus1"), size: 2048, children: vec![] },
        ]
    );
}

#[test]
fn the_null_device_takes_reads_and_writes() {
    let registration = register();
    assert_eq!(registration.module, "NullNg");
    assert!(registration.with_module_init);

    let (status, first, _) = module_init();
    assert_eq!(status, 0);
    assert_eq!(first.name, "nullng0");
    let (mut device, told) = NullIoDevice::create("nullng0");
    assert_eq!(device, first);
    assert_eq!(device.name, "nullng0");
    assert_eq!(told.name, "nullng0");
    assert_eq!(told.product_name, "nullblk thing");
    assert_eq!(told.block_length, 1 << 12);
    assert_eq!(told.block_count, 1 << 20);
    assert_eq!(told.required_alignment, 12);
    assert_eq!(device.dbg("0x55d0"), "NIO.Dev[id '0x55d0' name 'nullng0' smth '789']");

    for io_type in [IoType::Read, IoType::Write] {
        assert!(device.io_type_supported(io_type));
        assert_eq!(device.submit_request(io_type), Submission::Queue);
    }
    for io_type in [
        IoType::Invalid,
        IoType::Unmap,
        IoType::Flush,
        IoType::Reset,
        IoType::NvmeAdmin,
        IoType::NvmeIo,
        IoType::WriteZeros,
        IoType::Abort,
    ] {
        assert!(!device.io_type_supported(io_type));
        assert_eq!(device.submit_request(io_type), Submission::Fail);
    }

    let first = device.io_channel_create().unwrap();
    assert_eq!(first, NullIoChannelData { my_poller: 123, my_data: 11 });
    assert_eq!(first.dbg(), "NIO.Dat[p '123' d '11']");
    assert_eq!(device.io_channel_create().unwrap().my_data, 12);
    assert_eq!(device.next_chan, 12);
    device.next_chan = i64::MAX;
    assert_eq!(device.io_channel_create(), None);
    assert_eq!(device.next_chan, i64::MAX);
    assert_eq!(NullIoChannelData::new(-1, i64::MIN).dbg(), "NIO.Dat[p '-1' d '-9223372036854775808']");
    assert_eq!(NullIoChannelData::polled(0), 0);
    assert_eq!(NullIoChannelData::polled(3), 3);
}
