use vstd::prelude::*;
use crate::clocks::Clock;
use crate::graphics::vdp::{
    Device, VDP, VdpView, poll_spec, vdp_port_read_spec, vdp_port_write_spec, vdp_wf, vdp_write_ok,
};

verus! {

/// The devices on the CPU's I/O ports, as values, in the order they were added.
pub open spec fn devices_wf(ds: Seq<VdpView>) -> bool {
    forall|i: int| 0 <= i < ds.len() ==> #[trigger] vdp_wf(ds[i])
}

/// A read of I/O port `port` at clock `cycles`: the joystick ports read as
/// nothing pressed; any other port is read from every device, and the last
/// device's answer is the value (0 with none).
pub open spec fn ports_read_spec(ds: Seq<VdpView>, cycles: u32, port: u8) -> (Seq<VdpView>, u8) {
    if port == 0xdc || port == 0xdd {
        (ds, 0xff)
    } else {
        (
            Seq::new(ds.len(), |i: int| vdp_port_read_spec(ds[i], cycles, port).0),
            if ds.len() == 0 { 0 } else { vdp_port_read_spec(ds[ds.len() - 1], cycles, port).1 },
        )
    }
}

/// Whether every device can take `value` written to `port`.
pub open spec fn ports_write_ok(ds: Seq<VdpView>, port: u8, value: u8) -> bool {
    forall|i: int| 0 <= i < ds.len() ==> #[trigger] vdp_write_ok(ds[i], port, value)
}

/// A write of `value` to I/O port `port`: every device takes it.
pub open spec fn ports_write_spec(ds: Seq<VdpView>, port: u8, value: u8) -> Seq<VdpView> {
    Seq::new(ds.len(), |i: int| vdp_port_write_spec(ds[i], port, value))
}

/// Every device's interrupt timing advanced to clock `cycles`.
pub open spec fn ports_poll_spec(ds: Seq<VdpView>, cycles: u32) -> Seq<VdpView> {
    Seq::new(
        ds.len(),
        |i: int| VdpView { interrupt_handler: poll_spec(ds[i].interrupt_handler, cycles).0, ..ds[i] },
    )
}

/// Whether some device requests an interrupt at clock `cycles`.
pub open spec fn ports_interrupt(ds: Seq<VdpView>, cycles: u32) -> bool {
    exists|i: int| 0 <= i < ds.len() && #[trigger] poll_spec(ds[i].interrupt_handler, cycles).1
}

/// The devices wired to the CPU's I/O ports.
pub struct Ports {
    devices: Vec<VDP>,
}

impl View for Ports {
    type V = Seq<VdpView>;

    closed spec fn view(&self) -> Seq<VdpView> {
        self.devices@.map_values(|d: VDP| d@)
    }
}

impl Ports {
    /// No devices.
    pub fn new() -> (r: Self)
        ensures
            r@ == Seq::<VdpView>::empty(),
    {
        let r = Self { devices: Vec::new() };
        assert(r@ =~= Seq::<VdpView>::empty());
        r
    }

    /// Wire `device` to the ports, after the others.
    pub fn add_device(&mut self, device: VDP)
        ensures
            final(self)@ == old(self)@.push(device@),
    {
        self.devices.push(device);
        assert(self@ =~= old(self)@.push(device@));
    }

    /// Read I/O port `port_address` at `clock`.
    pub fn port_read(&mut self, clock: &Clock, port_address: u8) -> (r: u8)
        requires
            devices_wf(old(self)@),
        ensures
            (final(self)@, r) == ports_read_spec(old(self)@, clock.cycles, port_address),
            devices_wf(final(self)@),
    {
        if port_address == 0xdc {
            return 0xff;
        }
        if port_address == 0xdd {
            return 0xff;
        }
        let ghost ds = self@;
        let mut last_value: u8 = 0;
        let mut i: usize = 0;
        while i < self.devices.len()
            invariant
                self@.len() == ds.len(),
                devices_wf(ds),
                i <= ds.len(),
                port_address != 0xdc && port_address != 0xdd,
                forall|k: int| 0 <= k < i ==> #[trigger] self@[k] == vdp_port_read_spec(ds[k], clock.cycles, port_address).0,
                forall|k: int| i <= k < ds.len() ==> #[trigger] self@[k] == ds[k],
                last_value == (if i == 0 { 0 } else { vdp_port_read_spec(ds[i - 1], clock.cycles, port_address).1 }),
            decreases ds.len() - i,
        {
            assert(self@[i as int] == ds[i as int]);
            let ghost before = self.devices@;
            let ghost view_before = self@;
            let mut device = self.devices.remove(i);
            assert(vdp_wf(device@));
            last_value = device.port_read(clock, port_address);
            self.devices.insert(i, device);
            assert(self.devices@ =~= before.update(i as int, device));
            assert(self@ =~= view_before.update(i as int, device@));
            i = i + 1;
        }
        assert(self@ =~= ports_read_spec(ds, clock.cycles, port_address).0);
        last_value
    }

    /// Write `value` to I/O port `port_address` at `clock`.
    pub fn port_write(&mut self, clock: &Clock, port_address: u8, value: u8)
        requires
            devices_wf(old(self)@),
            ports_write_ok(old(self)@, port_address, value),
        ensures
            final(self)@ == ports_write_spec(old(self)@, port_address, value),
            devices_wf(final(self)@),
    {
        let ghost ds = self@;
        let mut i: usize = 0;
        while i < self.devices.len()
            invariant
                self@.len() == ds.len(),
                devices_wf(ds),
                ports_write_ok(ds, port_address, value),
                i <= ds.len(),
                forall|k: int| 0 <= k < i ==> #[trigger] self@[k] == vdp_port_write_spec(ds[k], port_address, value),
                forall|k: int| 0 <= k < i ==> vdp_wf(#[trigger] self@[k]),
                forall|k: int| i <= k < ds.len() ==> #[trigger] self@[k] == ds[k],
            decreases ds.len() - i,
        {
            assert(self@[i as int] == ds[i as int]);
            let ghost before = self.devices@;
            let ghost view_before = self@;
            let mut device = self.devices.remove(i);
            assert(vdp_wf(device@) && vdp_write_ok(device@, port_address, value));
            device.port_write(clock, port_address, value);
            self.devices.insert(i, device);
            assert(self.devices@ =~= before.update(i as int, device));
            assert(self@ =~= view_before.update(i as int, device@));
            i = i + 1;
        }
        assert(self@ =~= ports_write_spec(ds, port_address, value));
    }

    /// Advance every device to `clock`; whether any requests an interrupt.
    pub fn poll_interrupts(&mut self, raw_display: &mut Vec<u8>, clock: &Clock) -> (r: bool)
        requires
            devices_wf(old(self)@),
        ensures
            final(self)@ == ports_poll_spec(old(self)@, clock.cycles),
            r == ports_interrupt(old(self)@, clock.cycles),
            devices_wf(final(self)@),
            final(raw_display)@ == old(raw_display)@,
    {
        let ghost ds = self@;
        let mut interrupt = false;
        let mut i: usize = 0;
        while i < self.devices.len()
            invariant
                self@.len() == ds.len(),
                devices_wf(ds),
                i <= ds.len(),
                raw_display@ == old(raw_display)@,
                forall|k: int| 0 <= k < i ==> #[trigger] self@[k] == ports_poll_spec(ds, clock.cycles)[k],
                forall|k: int| 0 <= k < i ==> vdp_wf(#[trigger] self@[k]),
                forall|k: int| i <= k < ds.len() ==> #[trigger] self@[k] == ds[k],
                interrupt == exists|k: int| 0 <= k < i && #[trigger] poll_spec(ds[k].interrupt_handler, clock.cycles).1,
            decreases ds.len() - i,
        {
            assert(self@[i as int] == ds[i as int]);
            let ghost before = self.devices@;
            let ghost view_before = self@;
            let mut device = self.devices.remove(i);
            let requested = device.poll_interrupts(raw_display, clock);
            self.devices.insert(i, device);
            assert(self.devices@ =~= before.update(i as int, device));
            assert(self@ =~= view_before.update(i as int, device@));
            interrupt = interrupt || requested;
            proof {
                if requested {
                    assert(poll_spec(ds[i as int].interrupt_handler, clock.cycles).1);
                }
            }
            i = i + 1;
        }
        assert(self@ =~= ports_poll_spec(ds, clock.cycles));
        interrupt
    }

    /// Whether every device can take `value` written to `port_address`.
    pub fn accepts_write(&self, port_address: u8, value: u8) -> (r: bool)
        ensures
            r == ports_write_ok(self@, port_address, value),
    {
        let mut i: usize = 0;
        while i < self.devices.len()
            invariant
                i <= self@.len(),
                self@.len() == self.devices@.len(),
                forall|k: int| 0 <= k < i ==> #[trigger] vdp_write_ok(self@[k], port_address, value),
            decreases self@.len() - i,
        {
            if !self.devices[i].accepts_write(port_address, value) {
                assert(!vdp_write_ok(self@[i as int], port_address, value));
                return false;
            }
            i = i + 1;
        }
        true
    }
}

} // verus!
