use keypoint_central::controller::{build_sdc, SdcCall, SDC_MEM_SIZE};

/// Runs a bring-up in which the call at `failing` fails.
fn bring_up(failing: Option<usize>) -> (Vec<SdcCall>, Result<(), i32>) {
    let mut calls = Vec::new();
    let mut error = None;
    loop {
        match build_sdc(calls.len(), error.take()) {
            Err(e) => return (calls, Err(e)),
            Ok(None) => return (calls, Ok(())),
            Ok(Some(call)) => {
                if failing == Some(calls.len()) {
                    error = Some(-22);
                }
                calls.push(call);
            }
        }
    }
}

fn expected() -> Vec<SdcCall> {
    vec![
        SdcCall::New,
        SdcCall::SupportScan,
        SdcCall::SupportCentral,
        SdcCall::SupportAdv,
        SdcCall::SupportPeripheral,
        SdcCall::SupportDlePeripheral,
        SdcCall::SupportDleCentral,
        SdcCall::SupportPhyUpdateCentral,
        SdcCall::SupportPhyUpdatePeripheral,
        SdcCall::SupportLe2mPhy,
        SdcCall::CentralCount(1),
        SdcCall::PeripheralCount(1),
        SdcCall::BufferCfg {
            tx_packet_size: 251,
            rx_packet_size: 251,
            tx_packet_count: 3,
            rx_packet_count: 3,
        },
        SdcCall::Build,
    ]
}

#[test]
fn bring_up_makes_every_call_in_order() {
    let (calls, result) = bring_up(None);
    assert_eq!(calls, expected());
    assert_eq!(result, Ok(()));
}

#[test]
fn bring_up_stops_at_the_first_error() {
    for failing in 0..expected().len() {
        let (calls, result) = bring_up(Some(failing));
        assert_eq!(calls, expected()[..=failing]);
        assert_eq!(result, Err(-22));
    }
}

#[test]
fn nothing_follows_the_last_call() {
    assert_eq!(build_sdc::<i32>(14, None), Ok(None));
    assert_eq!(build_sdc::<i32>(usize::MAX, None), Ok(None));
    assert_eq!(build_sdc(14, Some(5)), Err(5));
}

#[test]
fn controller_memory_is_set_aside() {
    assert_eq!(SDC_MEM_SIZE, 6080);
}
