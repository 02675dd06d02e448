//! The tasks that run side by side once the left half is set up, and the order
//! in which they start.

use vstd::prelude::*;

verus! {

/// A task of the left half.
#[derive(Clone, Copy, PartialEq, Eq, Structural, Debug)]
pub enum Runner {
    /// Scans the key matrix.
    Matrix,
    /// Reads the knob.
    Encoder,
    /// Samples the battery voltage.
    AdcDevice,
    /// Writes settings to flash.
    Storage,
    /// Talks to the host over USB.
    UsbTransport,
    /// Talks to the host and the right half over Bluetooth.
    BleTransport,
    /// Measures typing speed.
    WpmProcessor,
    /// Turns voltage samples into a battery level.
    BattProc,
    /// Turns key events into reports.
    Keyboard,
    /// Logs battery and layer events.
    PeripheralBatteryMonitor,
    /// Reads the trackpad.
    A320,
    /// Turns trackpad motion into reports.
    PadProcessor,
    /// Turns the right half's nub motion into reports.
    TpProcessor,
    /// Switches a pointer to scrolling while a thumb key is held.
    ScrollController,
    /// Brings up the mouse layer on pointer motion.
    AutoMouse,
    /// Sets pointer speeds from key map cells.
    SpeedController,
    /// Draws the panel.
    Display,
    /// Feeds the watchdog.
    WatchdogRunner,
}

/// The tasks in the order in which they start.
pub open spec fn run_sequence() -> Seq<Runner> {
    seq![
        Runner::Matrix,
        Runner::Encoder,
        Runner::AdcDevice,
        Runner::Storage,
        Runner::UsbTransport,
        Runner::BleTransport,
        Runner::WpmProcessor,
        Runner::BattProc,
        Runner::Keyboard,
        Runner::PeripheralBatteryMonitor,
        Runner::A320,
        Runner::PadProcessor,
        Runner::TpProcessor,
        Runner::ScrollController,
        Runner::AutoMouse,
        Runner::SpeedController,
        Runner::Display,
        Runner::WatchdogRunner,
    ]
}

/// The tasks in the order in which they start.
pub fn run_order() -> (order: [Runner; 18])
    ensures
        order@ == run_sequence(),
        order@[0] == Runner::Matrix,
        order@[1] == Runner::Encoder,
        order@[2] == Runner::AdcDevice,
        order@[3] == Runner::Storage,
        order@[4] == Runner::UsbTransport,
        order@[5] == Runner::BleTransport,
        order@[6] == Runner::WpmProcessor,
        order@[7] == Runner::BattProc,
        order@[8] == Runner::Keyboard,
        order@[9] == Runner::PeripheralBatteryMonitor,
        order@[10] == Runner::A320,
        order@[11] == Runner::PadProcessor,
        order@[12] == Runner::TpProcessor,
        order@[13] == Runner::ScrollController,
        order@[14] == Runner::AutoMouse,
        order@[15] == Runner::SpeedController,
        order@[16] == Runner::Display,
        order@[17] == Runner::WatchdogRunner,
{
    let order: [Runner; 18] = [
        Runner::Matrix,
        Runner::Encoder,
        Runner::AdcDevice,
        Runner::Storage,
        Runner::UsbTransport,
        Runner::BleTransport,
        Runner::WpmProcessor,
        Runner::BattProc,
        Runner::Keyboard,
        Runner::PeripheralBatteryMonitor,
        Runner::A320,
        Runner::PadProcessor,
        Runner::TpProcessor,
        Runner::ScrollController,
        Runner::AutoMouse,
        Runner::SpeedController,
        Runner::Display,
        Runner::WatchdogRunner,
    ];
    assert(order@ =~= run_sequence());
    order
}

/// Whether a task publishes pointer motion.
pub open spec fn is_pointing_device(runner: Runner) -> bool {
    runner is A320
}

/// Whether a task handles pointers: acts on their motion, or sets how it is read.
pub open spec fn is_pointing_processor(runner: Runner) -> bool {
    runner is PadProcessor || runner is TpProcessor || runner is ScrollController
        || runner is AutoMouse || runner is SpeedController
}

/// Every task starts exactly once.
pub proof fn law_every_task_starts_once(runner: Runner)
    ensures
        run_sequence().contains(runner),
        run_sequence().no_duplicates(),
{
    let s = run_sequence();
    assert(s[0] is Matrix && s[1] is Encoder && s[2] is AdcDevice && s[3] is Storage
        && s[4] is UsbTransport && s[5] is BleTransport && s[6] is WpmProcessor && s[7] is BattProc
        && s[8] is Keyboard && s[9] is PeripheralBatteryMonitor && s[10] is A320
        && s[11] is PadProcessor && s[12] is TpProcessor && s[13] is ScrollController
        && s[14] is AutoMouse && s[15] is SpeedController && s[16] is Display
        && s[17] is WatchdogRunner);
}

/// Pointing devices start before every task that handles pointers.
pub proof fn law_devices_start_before_processors(i: int, j: int)
    requires
        0 <= i < run_sequence().len(),
        0 <= j < run_sequence().len(),
        is_pointing_device(run_sequence()[i]),
        is_pointing_processor(run_sequence()[j]),
    ensures
        i < j,
{
}

/// Each task has its own turn: the matrix starts first, then knob, sampler,
/// storage, the two transports, the processors of keys and battery, the pointing
/// tasks, the panel, and last the watchdog.
pub proof fn law_each_task_has_its_turn(turn: int)
    requires
        0 <= turn < run_sequence().len(),
    ensures
        run_sequence().len() == 18,
        run_sequence()[turn] is Matrix <==> turn == 0,
        run_sequence()[turn] is Encoder <==> turn == 1,
        run_sequence()[turn] is AdcDevice <==> turn == 2,
        run_sequence()[turn] is Storage <==> turn == 3,
        run_sequence()[turn] is UsbTransport <==> turn == 4,
        run_sequence()[turn] is BleTransport <==> turn == 5,
        run_sequence()[turn] is WpmProcessor <==> turn == 6,
        run_sequence()[turn] is BattProc <==> turn == 7,
        run_sequence()[turn] is Keyboard <==> turn == 8,
        run_sequence()[turn] is PeripheralBatteryMonitor <==> turn == 9,
        run_sequence()[turn] is A320 <==> turn == 10,
        run_sequence()[turn] is PadProcessor <==> turn == 11,
        run_sequence()[turn] is TpProcessor <==> turn == 12,
        run_sequence()[turn] is ScrollController <==> turn == 13,
        run_sequence()[turn] is AutoMouse <==> turn == 14,
        run_sequence()[turn] is SpeedController <==> turn == 15,
        run_sequence()[turn] is Display <==> turn == 16,
        run_sequence()[turn] is WatchdogRunner <==> turn == 17,
{
}

} // verus!
