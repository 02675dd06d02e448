//! Bringing up the Bluetooth controller: which calls its builder gets, in which
//! order, and where the sequence stops.

use vstd::prelude::*;

verus! {

/// Outgoing L2CAP buffers per link.
pub const L2CAP_TXQ: u8 = 3;

/// Incoming L2CAP buffers per link.
pub const L2CAP_RXQ: u8 = 3;

/// Size of L2CAP packets.
pub const L2CAP_MTU: u16 = 251;

/// Bytes of memory that are set aside for the controller.
pub const SDC_MEM_SIZE: usize = 6080;

/// A call on the controller's builder.
#[derive(Clone, Copy, PartialEq, Eq, Structural, Debug)]
pub enum SdcCall {
    /// Make the builder.
    New,
    /// Enable scanning.
    SupportScan,
    /// Enable the central role.
    SupportCentral,
    /// Enable advertising.
    SupportAdv,
    /// Enable the peripheral role.
    SupportPeripheral,
    /// Enable longer packets in the peripheral role.
    SupportDlePeripheral,
    /// Enable longer packets in the central role.
    SupportDleCentral,
    /// Enable changing the radio mode in the central role.
    SupportPhyUpdateCentral,
    /// Enable changing the radio mode in the peripheral role.
    SupportPhyUpdatePeripheral,
    /// Enable the 2 Mbit/s radio mode.
    SupportLe2mPhy,
    /// Set the number of links in the central role.
    CentralCount(u8),
    /// Set the number of links in the peripheral role.
    PeripheralCount(u8),
    /// Set the size and number of the packet buffers.
    BufferCfg {
        /// Bytes in an outgoing packet.
        tx_packet_size: u16,
        /// Bytes in an incoming packet.
        rx_packet_size: u16,
        /// Outgoing packets per link.
        tx_packet_count: u8,
        /// Incoming packets per link.
        rx_packet_count: u8,
    },
    /// Build the controller.
    Build,
}

/// The calls that bring the controller up, in order: one link to the right
/// half, in the central role, and one to the host, in the peripheral role.
pub open spec fn sdc_calls() -> Seq<SdcCall> {
    seq![
        SdcCall::New,
        SdcCall::SupportScan,
        SdcCall::SupportCentral,
        SdcCall::SupportAdv,
        SdcCall::SupportPeripheral,
        SdcCall::SupportDlePeripheral,
        SdcCall::SupportDleCentral,
        SdcCall::SupportPhyUpdateCentral,
        SdcCall::SupportPhyUpdatePeripheral,
        SdcCall::SupportLe2mPhy,
        SdcCall::CentralCount(1),
        SdcCall::PeripheralCount(1),
        SdcCall::BufferCfg {
            tx_packet_size: L2CAP_MTU,
            rx_packet_size: L2CAP_MTU,
            tx_packet_count: L2CAP_TXQ,
            rx_packet_count: L2CAP_RXQ,
        },
        SdcCall::Build,
    ]
}

/// The next step after `made` calls, the last of which gave `error`, if it
/// failed: the call to make, `None` once the controller is built, or that error.
pub open spec fn sdc_step<E>(made: nat, error: Option<E>) -> Result<Option<SdcCall>, E> {
    match error {
        Some(e) => Err(e),
        None => if made < sdc_calls().len() {
            Ok(Some(sdc_calls()[made as int]))
        } else {
            Ok(None)
        },
    }
}

/// Decides how the bring-up goes on. `made` counts the calls made so far, and
/// `error` is what the last of them failed with, if it failed. The first error
/// ends the bring-up and is its result.
pub fn build_sdc<E>(made: usize, error: Option<E>) -> (next: Result<Option<SdcCall>, E>)
    ensures
        next == sdc_step(made as nat, error),
        error is Some ==> next is Err && next->Err_0 == error->0,
        error is None ==> next is Ok,
        error is None && made == 0 ==> next->Ok_0 == Some(SdcCall::New),
        error is None && made == 1 ==> next->Ok_0 == Some(SdcCall::SupportScan),
        error is None && made == 2 ==> next->Ok_0 == Some(SdcCall::SupportCentral),
        error is None && made == 3 ==> next->Ok_0 == Some(SdcCall::SupportAdv),
        error is None && made == 4 ==> next->Ok_0 == Some(SdcCall::SupportPeripheral),
        error is None && made == 5 ==> next->Ok_0 == Some(SdcCall::SupportDlePeripheral),
        error is None && made == 6 ==> next->Ok_0 == Some(SdcCall::SupportDleCentral),
        error is None && made == 7 ==> next->Ok_0 == Some(SdcCall::SupportPhyUpdateCentral),
        error is None && made == 8 ==> next->Ok_0 == Some(SdcCall::SupportPhyUpdatePeripheral),
        error is None && made == 9 ==> next->Ok_0 == Some(SdcCall::SupportLe2mPhy),
        error is None && made == 10 ==> next->Ok_0 == Some(SdcCall::CentralCount(1)),
        error is None && made == 11 ==> next->Ok_0 == Some(SdcCall::PeripheralCount(1)),
        error is None && made == 12 ==> next->Ok_0 == Some((SdcCall::BufferCfg {
                tx_packet_size: 251,
                rx_packet_size: 251,
                tx_packet_count: 3,
                rx_packet_count: 3,
            })),
        error is None && made == 13 ==> next->Ok_0 == Some(SdcCall::Build),
        error is None && made >= 14 ==> next->Ok_0 is None,
{
    match error {
        Some(e) => Err(e),
        None => Ok(
            match made {
                0 => Some(SdcCall::New),
                1 => Some(SdcCall::SupportScan),
                2 => Some(SdcCall::SupportCentral),
                3 => Some(SdcCall::SupportAdv),
                4 => Some(SdcCall::SupportPeripheral),
                5 => Some(SdcCall::SupportDlePeripheral),
                6 => Some(SdcCall::SupportDleCentral),
                7 => Some(SdcCall::SupportPhyUpdateCentral),
                8 => Some(SdcCall::SupportPhyUpdatePeripheral),
                9 => Some(SdcCall::SupportLe2mPhy),
                10 => Some(SdcCall::CentralCount(1)),
                11 => Some(SdcCall::PeripheralCount(1)),
                12 => Some(
                    SdcCall::BufferCfg {
                        tx_packet_size: L2CAP_MTU,
                        rx_packet_size: L2CAP_MTU,
                        tx_packet_count: L2CAP_TXQ,
                        rx_packet_count: L2CAP_RXQ,
                    },
                ),
                13 => Some(SdcCall::Build),
                _ => None,
            },
        ),
    }
}

/// The calls that a bring-up makes from call number `made` on, and the error it
/// ends with, if it fails, when `error` is that of the call before and call
/// number `i` fails with `errors(i)`, if at all.
pub open spec fn sdc_run<E>(made: nat, error: Option<E>, errors: spec_fn(int) -> Option<E>) -> (
    Seq<SdcCall>,
    Option<E>,
)
    decreases sdc_calls().len() - made,
{
    match sdc_step(made, error) {
        Err(e) => (Seq::empty(), Some(e)),
        Ok(None) => (Seq::empty(), None),
        Ok(Some(call)) => {
            let rest = sdc_run(made + 1, errors(made as int), errors);
            (seq![call] + rest.0, rest.1)
        },
    }
}

proof fn lemma_run_without_error<E>(made: nat, errors: spec_fn(int) -> Option<E>)
    requires
        made <= sdc_calls().len(),
        forall|i: int| 0 <= i < sdc_calls().len() ==> #[trigger] errors(i) is None,
    ensures
        sdc_run(made, None::<E>, errors).0 == sdc_calls().skip(made as int),
        sdc_run(made, None::<E>, errors).1 is None,
    decreases sdc_calls().len() - made,
{
    if made < sdc_calls().len() {
        assert(errors(made as int) is None);
        lemma_run_without_error(made + 1, errors);
        assert(seq![sdc_calls()[made as int]] + sdc_calls().skip(made as int + 1)
            =~= sdc_calls().skip(made as int));
    } else {
        assert(sdc_calls().skip(made as int) =~= Seq::empty());
    }
}

proof fn lemma_run_up_to_error<E>(made: nat, failing: int, errors: spec_fn(int) -> Option<E>)
    requires
        made <= failing < sdc_calls().len(),
        forall|i: int| 0 <= i < failing ==> #[trigger] errors(i) is None,
        errors(failing) is Some,
    ensures
        sdc_run(made, None::<E>, errors).0 == sdc_calls().subrange(made as int, failing + 1),
        sdc_run(made, None::<E>, errors).1 == errors(failing),
    decreases failing - made,
{
    let run = sdc_run(made, None::<E>, errors);
    let rest = sdc_run(made + 1, errors(made as int), errors);
    if made < failing {
        assert(errors(made as int) is None);
        lemma_run_up_to_error(made + 1, failing, errors);
    }
    assert(run.0 =~= sdc_calls().subrange(made as int, failing + 1));
}

/// While no call fails, the bring-up makes each call once, in order, and ends
/// without an error.
pub proof fn law_bring_up_completes<E>(errors: spec_fn(int) -> Option<E>)
    requires
        forall|i: int| 0 <= i < sdc_calls().len() ==> #[trigger] errors(i) is None,
    ensures
        sdc_run(0, None::<E>, errors).0 == sdc_calls(),
        sdc_run(0, None::<E>, errors).1 is None,
{
    lemma_run_without_error(0, errors);
    assert(sdc_calls().skip(0) =~= sdc_calls());
}

/// The first call that fails is the last one made, and its error is the result.
pub proof fn law_first_error_ends_bring_up<E>(failing: int, errors: spec_fn(int) -> Option<E>)
    requires
        0 <= failing < sdc_calls().len(),
        forall|i: int| 0 <= i < failing ==> #[trigger] errors(i) is None,
        errors(failing) is Some,
    ensures
        sdc_run(0, None::<E>, errors).0 == sdc_calls().take(failing + 1),
        sdc_run(0, None::<E>, errors).1 == errors(failing),
{
    lemma_run_up_to_error(0, failing, errors);
}

/// Each call has its own turn: the builder is made first, the roles and radio
/// modes are enabled, then the links and buffers are sized, one link in each
/// role and three packets of 251 bytes each way, and building comes last.
pub proof fn law_each_call_has_its_turn(number: int)
    requires
        0 <= number < sdc_calls().len(),
    ensures
        sdc_calls().len() == 14,
        sdc_calls()[number] == SdcCall::New <==> number == 0,
        sdc_calls()[number] == SdcCall::SupportScan <==> number == 1,
        sdc_calls()[number] == SdcCall::SupportCentral <==> number == 2,
        sdc_calls()[number] == SdcCall::SupportAdv <==> number == 3,
        sdc_calls()[number] == SdcCall::SupportPeripheral <==> number == 4,
        sdc_calls()[number] == SdcCall::SupportDlePeripheral <==> number == 5,
        sdc_calls()[number] == SdcCall::SupportDleCentral <==> number == 6,
        sdc_calls()[number] == SdcCall::SupportPhyUpdateCentral <==> number == 7,
        sdc_calls()[number] == SdcCall::SupportPhyUpdatePeripheral <==> number == 8,
        sdc_calls()[number] == SdcCall::SupportLe2mPhy <==> number == 9,
        sdc_calls()[number] == SdcCall::CentralCount(1) <==> number == 10,
        sdc_calls()[number] == SdcCall::PeripheralCount(1) <==> number == 11,
        sdc_calls()[number] == (SdcCall::BufferCfg {
                tx_packet_size: 251,
                rx_packet_size: 251,
                tx_packet_count: 3,
                rx_packet_count: 3,
            }) <==> number == 12,
        sdc_calls()[number] == SdcCall::Build <==> number == 13,
{
}

/// However far the bring-up has come, an error ends it with that error, and
/// without one it ends exactly when all fourteen calls are made.
pub proof fn law_bring_up_ends_only_there<E>(made: nat, error: Option<E>)
    ensures
        error is Some <==> sdc_step(made, error) is Err,
        error is Some ==> sdc_step(made, error)->Err_0 == error->0,
        error is None ==> (made >= 14 <==> sdc_step(made, error)->Ok_0 is None),
{
}

} // verus!
