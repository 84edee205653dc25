use vstd::prelude::*;
use crate::clocks::Clock;
use crate::graphics::display::Colour;

verus! {

/// What the VDP knows of one entry of the name table (a background tile).
#[derive(Clone, Copy)]
pub struct TileAttribute {
    pub priority_cleared: bool,
    pub priority: u8,
    pub palette_select: bool,
    pub vertical_flip: bool,
    pub horizontal_flip: bool,
    pub tile_number: u16,
    pub references: u16,
    pub changed: bool,
}

impl TileAttribute {
    pub open spec fn zero() -> Self {
        TileAttribute {
            priority_cleared: false,
            priority: 0,
            palette_select: false,
            vertical_flip: false,
            horizontal_flip: false,
            tile_number: 0,
            references: 0,
            changed: false,
        }
    }
}

impl Default for TileAttribute {
    fn default() -> (r: Self)
        ensures
            r == TileAttribute::zero(),
    {
        Self {
            priority_cleared: false,
            priority: 0,
            palette_select: false,
            vertical_flip: false,
            horizontal_flip: false,
            tile_number: 0,
            references: 0,
            changed: false,
        }
    }
}

/// Horizontal scroll of one scan line.
#[derive(Clone, Copy)]
pub struct HorizontalScroll {
    pub column_offset: u8,
    pub fine_scroll: u8,
    pub x_offset: u16,
}

impl HorizontalScroll {
    pub open spec fn zero() -> Self {
        HorizontalScroll { column_offset: 0, fine_scroll: 0, x_offset: 0 }
    }
}

impl Default for HorizontalScroll {
    fn default() -> (r: Self)
        ensures
            r == HorizontalScroll::zero(),
    {
        Self { column_offset: 0, fine_scroll: 0, x_offset: 0 }
    }
}

/// What the VDP caches of one 8x8 pattern: the set of palette entries it
/// uses (bit `c` of `colours` for colour `c`) and whether that set is known.
#[derive(Clone, Copy)]
pub struct PatternInfo {
    pub colour_check: bool,
    pub colours: u16,
    pub changed: bool,
    pub screen_version_cached: bool,
    pub references: u16,
}

impl PatternInfo {
    pub open spec fn zero() -> Self {
        PatternInfo { colour_check: false, colours: 0, changed: false, screen_version_cached: false, references: 0 }
    }
}

impl Default for PatternInfo {
    fn default() -> (r: Self)
        ensures
            r == PatternInfo::zero(),
    {
        Self { colour_check: false, colours: 0, changed: false, screen_version_cached: false, references: 0 }
    }
}

/// The settings decoded from VDP register 0.
pub struct Mode1Settings {
    pub y_scroll: u8,
    pub x_scroll: u16,
    pub h_sync_interrupt_enabled: bool,
    pub start_x: u8,
    pub display_mode_1: u8,
}

/// The settings that register 0 holding `input` stands for.
pub open spec fn mode_1_of(input: u8) -> Mode1Settings {
    Mode1Settings {
        y_scroll: if input & 0x40 != 0 { 16 } else { 0 },
        x_scroll: if input & 0x40 != 0 { 192 } else { 256 },
        h_sync_interrupt_enabled: input & 0x10 != 0,
        start_x: if input & 0x20 != 0 { 8 } else { 0 },
        display_mode_1: (if input & 0x04 != 0 { 8u8 } else { 0u8 }) | (if input & 0x02 != 0 { 2u8 } else { 0u8 }),
    }
}

impl Mode1Settings {
    pub fn new() -> (r: Self)
        ensures
            r == (Mode1Settings { y_scroll: 0, x_scroll: 0, h_sync_interrupt_enabled: false, start_x: 0, display_mode_1: 0 }),
    {
        Self { y_scroll: 0, x_scroll: 0, h_sync_interrupt_enabled: false, start_x: 0, display_mode_1: 0 }
    }

    /// Decode register 0.
    pub fn update_mode_1_settings(&mut self, mode_1_input: u8)
        ensures
            *final(self) == mode_1_of(mode_1_input),
    {
        Mode1Settings::mode_1_settings(
            mode_1_input,
            &mut self.y_scroll,
            &mut self.x_scroll,
            &mut self.h_sync_interrupt_enabled,
            &mut self.start_x,
            &mut self.display_mode_1,
        );
    }

    fn mode_1_settings(
        mode_1_input: u8,
        y_scroll: &mut u8,
        x_scroll: &mut u16,
        h_sync_interrupt_enabled: &mut bool,
        start_x: &mut u8,
        display_mode_1: &mut u8,
    )
        ensures
            *final(y_scroll) == mode_1_of(mode_1_input).y_scroll,
            *final(x_scroll) == mode_1_of(mode_1_input).x_scroll,
            *final(h_sync_interrupt_enabled) == mode_1_of(mode_1_input).h_sync_interrupt_enabled,
            *final(start_x) == mode_1_of(mode_1_input).start_x,
            *final(display_mode_1) == mode_1_of(mode_1_input).display_mode_1,
    {
        // First scrolling line.
        if 0 != (mode_1_input & Constants::VDP0DISHSCROLL) {
            *y_scroll = 16;
        } else {
            *y_scroll = 0;
        }
        // Last scrolling position.
        if 0 != (mode_1_input & Constants::VDP0DISHSCROLL) {
            *x_scroll = 192;
        } else {
            *x_scroll = Constants::SMS_WIDTH;
        }
        *h_sync_interrupt_enabled = 0 != (mode_1_input & Constants::VDP0LINEINTENABLE);
        if 0 != (mode_1_input & Constants::VDP0COL0OVERSCAN) {
            *start_x = Constants::PATTERNWIDTH;
        } else {
            *start_x = 0;
        }
        let m4: u8 = if 0 != (mode_1_input & Constants::VDP0M4) { 8 } else { 0 };
        let m2: u8 = if 0 != (mode_1_input & Constants::VDP0M2) { 2 } else { 0 };
        *display_mode_1 = m4 | m2;
    }
}

/// The settings decoded from VDP register 1.
pub struct Mode2Settings {
    pub v_sync_interrupt_enabled: bool,
    pub enable_display: bool,
    pub sprite_height: u8,
    pub display_mode_2: u8,
}

/// The settings that register 1 holding `input` stands for.
pub open spec fn mode_2_of(input: u8) -> Mode2Settings {
    Mode2Settings {
        v_sync_interrupt_enabled: input & 0x20 != 0,
        enable_display: input & 0x40 != 0,
        sprite_height: if input & 0x02 != 0 { 16 } else { 8 },
        display_mode_2: (if input & 0x08 != 0 { 4u8 } else { 0u8 }) | (if input & 0x10 != 0 { 1u8 } else { 0u8 }),
    }
}

impl Mode2Settings {
    pub fn new() -> (r: Self)
        ensures
            r == (Mode2Settings { v_sync_interrupt_enabled: false, enable_display: false, sprite_height: 0, display_mode_2: 0 }),
    {
        Self { v_sync_interrupt_enabled: false, enable_display: false, sprite_height: 0, display_mode_2: 0 }
    }

    /// Decode register 1.
    pub fn update_mode_2_settings(&mut self, mode_2_input: u8)
        ensures
            *final(self) == mode_2_of(mode_2_input),
    {
        Mode2Settings::mode_2_settings(
            mode_2_input,
            &mut self.v_sync_interrupt_enabled,
            &mut self.enable_display,
            &mut self.sprite_height,
            &mut self.display_mode_2,
        );
    }

    fn mode_2_settings(
        mode_2_input: u8,
        v_sync_interrupt_enabled: &mut bool,
        enable_display: &mut bool,
        sprite_height: &mut u8,
        display_mode_2: &mut u8,
    )
        ensures
            *final(v_sync_interrupt_enabled) == mode_2_of(mode_2_input).v_sync_interrupt_enabled,
            *final(enable_display) == mode_2_of(mode_2_input).enable_display,
            *final(sprite_height) == mode_2_of(mode_2_input).sprite_height,
            *final(display_mode_2) == mode_2_of(mode_2_input).display_mode_2,
    {
        *v_sync_interrupt_enabled = 0 != (mode_2_input & Constants::VDP1VSYNC);
        *enable_display = 0 != (mode_2_input & Constants::VDP1ENABLEDISPLAY);
        if 0 != (mode_2_input & Constants::VDP1BIGSPRITES) {
            *sprite_height = 16;
        } else {
            *sprite_height = 8;
        }
        let m3: u8 = if 0 != (mode_2_input & Constants::VDP1M3) { 4 } else { 0 };
        let m1: u8 = if 0 != (mode_2_input & Constants::VDP1M1) { 1 } else { 0 };
        *display_mode_2 = m3 | m1;
    }
}

/// The VDP's sizes, register bits and timings.
pub struct Constants {}

impl Constants {
    pub const RAMSIZE: u16 = 0x4000;
    pub const CRAMSIZE: u8 = 0x20;
    /// 3 MHz CPU, 50 Hz refresh.
    pub const VSYNCCYCLETIME: u16 = 65232;
    /// `VSYNCCYCLETIME * 72 / 262`.
    pub const BLANKTIME: u16 = 17926;
    /// `VSYNCCYCLETIME * 192 / 262`.
    pub const VFRAMETIME: u16 = 47803;
    pub const HSYNCCYCLETIME: u16 = 216;
    pub const REGISTERMASK: u8 = 0x0F;
    pub const REGISTERUPDATEMASK: u8 = 0xF0;
    pub const REGISTERUPDATEVALUE: u8 = 0x80;
    pub const NUMVDPREGISTERS: u8 = 16;
    pub const MAX_MODE_CONTROL_ENTRIES: u16 = 256;
    pub const VSYNCFLAG: u8 = 0x80;
    pub const MODE_CONTROL_NO_1: u8 = 0x0;
    pub const VDP0DISVSCROLL: u8 = 0x80;
    pub const VDP0DISHSCROLL: u8 = 0x40;
    pub const VDP0COL0OVERSCAN: u8 = 0x20;
    pub const VDP0LINEINTENABLE: u8 = 0x10;
    pub const VDP0SHIFTSPRITES: u8 = 0x08;
    pub const VDP0M4: u8 = 0x04;
    pub const VDP0M2: u8 = 0x02;
    pub const VDP0NOSYNC: u8 = 0x01;
    pub const MODE_CONTROL_NO_2: u8 = 0x1;
    pub const VDP1BIT7: u8 = 0x80;
    pub const VDP1ENABLEDISPLAY: u8 = 0x40;
    pub const VDP1VSYNC: u8 = 0x20;
    pub const VDP1M1: u8 = 0x10;
    pub const VDP1M3: u8 = 0x08;
    pub const VDP1BIGSPRITES: u8 = 0x02;
    pub const VDP1DOUBLESPRITES: u8 = 0x01;
    pub const NAMETABLEPRIORITY: u8 = 0x10;
    pub const NUMSPRITES: u8 = 64;
    pub const DMM4: u8 = 0x8;
    pub const DMM3: u8 = 0x4;
    pub const DMM2: u8 = 0x2;
    pub const DMM1: u8 = 0x1;
    pub const PALETTE_ADDRESS: u16 = 0xC000;
    pub const SMS_WIDTH: u16 = 256;
    pub const SMS_HEIGHT: u16 = 192;
    pub const SMS_COLOR_DEPTH: u8 = 16;
    pub const MAXPATTERNS: u16 = 512;
    pub const PATTERNWIDTH: u8 = 8;
    pub const PATTERNHEIGHT: u8 = 8;
    pub const PATTERNSIZE: u8 = 64;
    pub const MAXPALETTES: u8 = 2;
    pub const NUMTILEATTRIBUTES: u16 = 0x700;
    pub const TILEATTRIBUTEMASK: u16 = 0x7FF;
    pub const TILEATTRIBUTESADDRESSMASK: u16 = 0x3800;
    pub const TILEATTRIBUTESTILEMASK: u16 = 0x07FE;
    pub const TILESHIFT: u8 = 1;
    pub const TILEATTRIBUTESHMASK: u16 = 0x0001;
    pub const TILEPRIORITYSHIFT: u8 = 4;
    pub const TILEPALETTESHIFT: u8 = 3;
    pub const TILEVFLIPSHIFT: u8 = 2;
    pub const TILEHFLIPSHIFT: u8 = 1;
    pub const YTILES: u8 = 28;
    pub const XTILES: u8 = 32;
    /// `XTILES * YTILES`.
    pub const NUMTILES: u16 = 896;
    pub const SPRITEATTRIBUTESADDRESSMASK: u16 = 0x3F00;
    pub const SPRITEATTRIBUTESMASK: u16 = 0x00FF;
    pub const NUMSPRITEATTRIBUTES: u16 = 0x00FF;
    pub const SPRITETILEMASK: u16 = 0x0001;
    pub const LASTSPRITETOKEN: u16 = 0xD0;
    pub const SPRITEXNMASK: u16 = 0x0080;
    pub const MAXSPRITES: u8 = 64;
    pub const NOSPRITE: u8 = 64;
    pub const MAXSPRITESPERSCANLINE: u8 = 8;
    pub const PATTERNADDRESSLIMIT: u16 = 0x4000;
    /// Bytes of one pixel in the picture the VDP exports.
    pub const BYTES_PER_PIXEL: u16 = 4;
}

/// The derived constants agree with the quantities they are derived from.
pub proof fn lemma_derived_constants()
    ensures
        Constants::BLANKTIME as int == (Constants::VSYNCCYCLETIME as int * 72) / 262,
        Constants::VFRAMETIME as int == (Constants::VSYNCCYCLETIME as int * 192) / 262,
        Constants::NUMTILES as int == Constants::XTILES as int * Constants::YTILES as int,
{
}

/// The VDP's interrupt timing: line (H-sync) and frame (V-sync) interrupts.
pub struct VDPInterrupts {
    pub v_sync: u16,
    pub last_v_sync_clock: Clock,
    pub line_int_time: u32,
    pub line_interrupt: u16,
    pub line_interrupt_latch: u16,
    pub h_int_pending: bool,
    pub v_int_pending: bool,
    pub v_sync_interrupt_enabled: bool,
    pub h_sync_interrupt_enabled: bool,
}

/// `x` as a 16-bit value, rolled over.
pub open spec fn w16i(x: int) -> u16 {
    (x % 0x10000) as u16
}

/// `x` as a 32-bit value, rolled over.
pub open spec fn w32i(x: int) -> u32 {
    (x % 0x1_0000_0000) as u32
}

/// The interrupt state after a poll at clock `cycles`, and whether an
/// interrupt is requested.
pub open spec fn poll_spec(s: VDPInterrupts, cycles: u32) -> (VDPInterrupts, bool) {
    let v_sync = w16i(cycles - s.last_v_sync_clock.cycles);
    // A line interrupt comes due.
    let line_due = s.line_int_time < 47803 && v_sync >= s.line_int_time;
    let latch1 = if line_due { w16i(s.line_interrupt + 1) } else { s.line_interrupt_latch };
    let time1 = if line_due { w32i(s.line_int_time + w16i(latch1 * 216)) } else { s.line_int_time };
    let h_pending = s.h_int_pending || line_due;
    // The frame's display ends.
    let v_pending = s.v_int_pending || v_sync >= 47803;
    // The frame ends: restart the count.
    let wrap = v_sync >= 65232;
    let s2 = VDPInterrupts {
        v_sync: if wrap { 0 } else { v_sync },
        last_v_sync_clock: Clock { cycles: if wrap { cycles } else { s.last_v_sync_clock.cycles } },
        line_int_time: if wrap { w16i(s.line_interrupt * 216) as u32 } else { time1 },
        line_interrupt: s.line_interrupt,
        line_interrupt_latch: if wrap { s.line_interrupt } else { latch1 },
        h_int_pending: h_pending,
        v_int_pending: v_pending,
        v_sync_interrupt_enabled: s.v_sync_interrupt_enabled,
        h_sync_interrupt_enabled: s.h_sync_interrupt_enabled,
    };
    (s2, (s.v_sync_interrupt_enabled && v_pending) || (s.h_sync_interrupt_enabled && h_pending))
}

impl VDPInterrupts {
    pub fn new() -> (r: Self)
        ensures
            r.v_sync == 0,
            r.last_v_sync_clock.cycles == 0,
            r.line_int_time == 0,
            r.line_interrupt == 0,
            r.line_interrupt_latch == 0,
            !r.h_int_pending,
            !r.v_int_pending,
            r.v_sync_interrupt_enabled,
            r.h_sync_interrupt_enabled,
    {
        Self {
            v_sync: 0,
            last_v_sync_clock: Clock::new(),
            line_int_time: 0,
            line_interrupt: 0,
            line_interrupt_latch: 0,
            h_int_pending: false,
            v_int_pending: false,
            v_sync_interrupt_enabled: true,
            h_sync_interrupt_enabled: true,
        }
    }

    /// Advance the interrupt timing to `clock` and say whether an enabled
    /// interrupt is pending.
    pub fn poll_interrupts(&mut self, clock: &Clock) -> (r: bool)
        ensures
            (*final(self), r) == poll_spec(*old(self), clock.cycles),
    {
        let ghost s = *self;
        self.v_sync = clock.cycles.wrapping_sub(self.last_v_sync_clock.cycles) as u16;
        assert(self.v_sync == w16i(clock.cycles - s.last_v_sync_clock.cycles)) by {
            let d = clock.cycles - s.last_v_sync_clock.cycles;
            let wd = (d % 0x1_0000_0000) as u32;
            assert((wd as u16) as int == wd as int % 0x10000) by (bit_vector);
            assert((wd as int % 0x10000) == d % 0x10000) by (nonlinear_arith)
                requires wd as int == d % 0x1_0000_0000;
        }
        if (self.line_int_time < Constants::VFRAMETIME as u32) && (self.v_sync as u32 >= self.line_int_time) {
            self.line_interrupt_latch = self.line_interrupt.wrapping_add(1);
            self.line_int_time = self.line_int_time.wrapping_add(
                self.line_interrupt_latch.wrapping_mul(Constants::HSYNCCYCLETIME) as u32,
            );
            self.h_int_pending = true;
        }
        if self.v_sync >= Constants::VFRAMETIME {
            self.v_int_pending = true;
        }
        if self.v_sync >= Constants::VSYNCCYCLETIME {
            self.last_v_sync_clock.cycles = clock.cycles;
            self.v_sync = 0;
            self.line_interrupt_latch = self.line_interrupt;
            self.line_int_time = self.line_interrupt_latch.wrapping_mul(Constants::HSYNCCYCLETIME) as u32;
        }
        (self.v_sync_interrupt_enabled && self.v_int_pending) || (self.h_sync_interrupt_enabled && self.h_int_pending)
    }
}


/// The state of the video display processor, as values.
#[verifier::ext_equal]
pub struct VdpView {
    pub ram: Seq<u8>,
    pub c_ram: Seq<u8>,
    pub vdp_register: Seq<u8>,
    pub horizontal_scroll_info: Seq<HorizontalScroll>,
    pub vertical_scroll_info: Seq<u8>,
    pub pattern_info: Seq<PatternInfo>,
    pub screen_palette: Seq<Colour>,
    pub patterns4: Seq<u8>,
    pub tile_attributes: Seq<TileAttribute>,
    pub mode_1_control: Mode1Settings,
    pub mode_2_control: Mode2Settings,
    pub current_address: u16,
    pub sprite_attributes_address: u16,
    pub tile_attributes_address: u16,
    pub write_bf_low_address: u8,
    pub border_colour: u8,
    pub code_register: u8,
    pub read_be_latch: u8,
    pub address_latch: bool,
    pub last_v_sync_cycles: u32,
    pub current_y_pos: u16,
    pub display_mode: u8,
    pub y_end: u16,
    pub interrupt_handler: VDPInterrupts,
    pub sprite_tile_shift: u16,
    pub horizontal_scroll: u8,
    pub vertical_scroll: u8,
    pub debug_name_table_offset: u16,
    pub debug_sprite_information_table_offset: u16,
}

/// The video display processor: video RAM, colour RAM, registers and the
/// caches derived from them.
pub struct VDP {
    ram: Vec<u8>,
    c_ram: Vec<u8>,
    vdp_register: [u8; 16],
    horizontal_scroll_info: Vec<HorizontalScroll>,
    vertical_scroll_info: Vec<u8>,
    pattern_info: Vec<PatternInfo>,
    screen_palette: Vec<Colour>,
    patterns4: Vec<u8>,
    tile_attributes: Vec<TileAttribute>,
    mode_1_control: Mode1Settings,
    mode_2_control: Mode2Settings,
    current_address: u16,
    sprite_attributes_address: u16,
    tile_attributes_address: u16,
    write_bf_low_address: u8,
    border_colour: u8,
    code_register: u8,
    read_be_latch: u8,
    address_latch: bool,
    last_v_sync_clock: Clock,
    current_y_pos: u16,
    display_mode: u8,
    y_end: u16,
    interrupt_handler: VDPInterrupts,
    sprite_tile_shift: u16,
    horizontal_scroll: u8,
    vertical_scroll: u8,
    debug_name_table_offset: u16,
    debug_sprite_information_table_offset: u16,
}

impl View for VDP {
    type V = VdpView;

    closed spec fn view(&self) -> VdpView {
        VdpView {
            ram: self.ram@,
            c_ram: self.c_ram@,
            vdp_register: self.vdp_register@,
            horizontal_scroll_info: self.horizontal_scroll_info@,
            vertical_scroll_info: self.vertical_scroll_info@,
            pattern_info: self.pattern_info@,
            screen_palette: self.screen_palette@,
            patterns4: self.patterns4@,
            tile_attributes: self.tile_attributes@,
            mode_1_control: self.mode_1_control,
            mode_2_control: self.mode_2_control,
            current_address: self.current_address,
            sprite_attributes_address: self.sprite_attributes_address,
            tile_attributes_address: self.tile_attributes_address,
            write_bf_low_address: self.write_bf_low_address,
            border_colour: self.border_colour,
            code_register: self.code_register,
            read_be_latch: self.read_be_latch,
            address_latch: self.address_latch,
            last_v_sync_cycles: self.last_v_sync_clock.cycles,
            current_y_pos: self.current_y_pos,
            display_mode: self.display_mode,
            y_end: self.y_end,
            interrupt_handler: self.interrupt_handler,
            sprite_tile_shift: self.sprite_tile_shift,
            horizontal_scroll: self.horizontal_scroll,
            vertical_scroll: self.vertical_scroll,
            debug_name_table_offset: self.debug_name_table_offset,
            debug_sprite_information_table_offset: self.debug_sprite_information_table_offset,
        }
    }
}

/// The sizes of the VDP's tables, and what every state reachable from a new
/// VDP keeps: pattern pixels are 4-bit colour indices, tiles name one of the
/// 512 patterns, and scroll updates stay inside the 192 scan lines.
pub open spec fn vdp_wf(v: VdpView) -> bool {
    &&& v.ram.len() == 0x4000
    &&& v.c_ram.len() == 0x20
    &&& v.vdp_register.len() == 16
    &&& v.horizontal_scroll_info.len() == 192
    &&& v.vertical_scroll_info.len() == 192
    &&& v.pattern_info.len() == 512
    &&& v.screen_palette.len() == 0x20
    &&& v.patterns4.len() == 0x8000
    &&& v.tile_attributes.len() == 0x700
    &&& forall|k: int| 0 <= k < 0x8000 ==> #[trigger] v.patterns4[k] < 16
    &&& forall|k: int| 0 <= k < 0x700 ==> #[trigger] v.tile_attributes[k].tile_number < 512
    &&& v.y_end <= 192
}

/// The state of a VDP just switched on.
pub open spec fn initial_vdp() -> VdpView {
    VdpView {
        ram: Seq::new(0x4000, |i: int| 0u8),
        c_ram: Seq::new(0x20, |i: int| 0u8),
        vdp_register: Seq::new(16, |i: int| 0u8),
        horizontal_scroll_info: Seq::new(192, |i: int| HorizontalScroll::zero()),
        vertical_scroll_info: Seq::new(192, |i: int| 0u8),
        pattern_info: Seq::new(512, |i: int| PatternInfo::zero()),
        screen_palette: Seq::new(0x20, |i: int| Colour { r: 0, g: 0, b: 0 }),
        patterns4: Seq::new(0x8000, |i: int| 0u8),
        tile_attributes: Seq::new(0x700, |i: int| TileAttribute::zero()),
        mode_1_control: Mode1Settings { y_scroll: 0, x_scroll: 0, h_sync_interrupt_enabled: false, start_x: 0, display_mode_1: 0 },
        mode_2_control: Mode2Settings { v_sync_interrupt_enabled: false, enable_display: false, sprite_height: 0, display_mode_2: 0 },
        current_address: 0,
        sprite_attributes_address: 0,
        tile_attributes_address: 0,
        write_bf_low_address: 0,
        border_colour: 0,
        code_register: 0,
        read_be_latch: 0,
        address_latch: false,
        last_v_sync_cycles: 0,
        current_y_pos: 0,
        display_mode: 0,
        y_end: 0,
        interrupt_handler: VDPInterrupts {
            v_sync: 0,
            last_v_sync_clock: Clock { cycles: 0 },
            line_int_time: 0,
            line_interrupt: 0,
            line_interrupt_latch: 0,
            h_int_pending: false,
            v_int_pending: false,
            v_sync_interrupt_enabled: true,
            h_sync_interrupt_enabled: true,
        },
        sprite_tile_shift: 0,
        horizontal_scroll: 0,
        vertical_scroll: 0,
        debug_name_table_offset: 0,
        debug_sprite_information_table_offset: 0,
    }
}

/// The line counter read from port 0x7E at clock `cycles`, and the state after.
pub open spec fn port_7e_spec(v: VdpView, cycles: u32) -> (VdpView, u8) {
    let lines = w32i(cycles - v.last_v_sync_cycles) / 216;
    (VdpView { address_latch: false, current_y_pos: (lines + 1) as u16, ..v }, lines as u8)
}

/// The byte read from port 0xBE (the latched VRAM byte), and the state after:
/// the address moves on and the next byte is latched.
pub open spec fn port_be_read_spec(v: VdpView) -> (VdpView, u8) {
    let a = w16i(v.current_address + 1) & 0x3FFF;
    (VdpView { address_latch: false, current_address: a, read_be_latch: v.ram[a as int], ..v }, v.read_be_latch)
}

/// The colour that colour-RAM byte `data` (--BBGGRR) stands for, each 2-bit
/// channel scaled to 0..255.
pub open spec fn palette_colour(data: u8) -> Colour {
    Colour { r: ((data % 4) * 85) as u8, g: ((data / 4 % 4) * 85) as u8, b: ((data / 16 % 4) * 85) as u8 }
}

/// The set of colours used by the first `n` pixels of `pattern`, one bit per
/// colour.
pub open spec fn colour_mask(p4: Seq<u8>, pattern: int, n: nat) -> u16
    decreases n,
{
    if n == 0 {
        0
    } else {
        colour_mask(p4, pattern, (n - 1) as nat) | (1u16 << p4[pattern * 64 + n - 1])
    }
}

/// `p` with its colour set computed from the pattern's pixels.
pub open spec fn checked_pattern(p: PatternInfo, p4: Seq<u8>, pattern: int) -> PatternInfo {
    PatternInfo { colours: colour_mask(p4, pattern, 64), colour_check: true, ..p }
}

/// Pattern `i` after colour-RAM entry `addr` changed: its colour set is
/// computed if unknown, and it is marked changed if it uses that colour.
pub open spec fn refreshed_pattern(p: PatternInfo, p4: Seq<u8>, i: int, addr: u8) -> PatternInfo {
    let p1 = if !p.colour_check { checked_pattern(p, p4, i) } else { p };
    if p1.colours & (1u16 << (addr & 0xF)) != 0 {
        PatternInfo { changed: true, screen_version_cached: false, ..p1 }
    } else {
        p1
    }
}

/// Writing `data` to colour RAM at `address`: the palette entry and the
/// patterns that use it are updated if the byte changes.
pub open spec fn palette_spec(v: VdpView, address: u16, data: u8) -> VdpView {
    let addr = (address as u8) % 32;
    if v.c_ram[addr as int] == data {
        v
    } else {
        VdpView {
            c_ram: v.c_ram.update(addr as int, data),
            screen_palette: v.screen_palette.update(addr as int, palette_colour(data)),
            pattern_info: Seq::new(512, |i: int| refreshed_pattern(v.pattern_info[i], v.patterns4, i, addr)),
            ..v
        }
    }
}

/// Tile `t` after byte `data` was written to the name table at `address`.
pub open spec fn updated_tile(t: TileAttribute, address: u16, data: u8) -> TileAttribute {
    if address & 1 != 0 {
        TileAttribute {
            priority_cleared: if t.priority != 0 && data >> 4 == 0 { true } else { t.priority_cleared },
            priority: data >> 4,
            palette_select: (data >> 3) & 1 != 0,
            vertical_flip: (data >> 2) & 1 != 0,
            horizontal_flip: (data >> 1) & 1 != 0,
            tile_number: (t.tile_number & 0xFF) | (((data as u16) & 1) << 8),
            changed: true,
            ..t
        }
    } else {
        TileAttribute { tile_number: (t.tile_number & 0x100) | (data as u16), changed: true, ..t }
    }
}

/// A name-table write at `address` from `old_data` to `data`: the tile is
/// updated, and the pattern it named loses a reference that the pattern it
/// names gains.
pub open spec fn tile_update_spec(v: VdpView, address: u16, old_data: u8, data: u8) -> VdpView {
    if old_data == data {
        v
    } else {
        let tile = ((address & 0x7FE) >> 1) as int;
        let t = v.tile_attributes[tile];
        let n0 = t.tile_number as int;
        let pi1 = v.pattern_info.update(
            n0,
            PatternInfo { references: w16i(v.pattern_info[n0].references - 1), ..v.pattern_info[n0] },
        );
        let t1 = updated_tile(t, address, data);
        let n1 = t1.tile_number as int;
        let pi2 = pi1.update(n1, PatternInfo { references: w16i(pi1[n1].references + 1), ..pi1[n1] });
        VdpView { pattern_info: pi2, tile_attributes: v.tile_attributes.update(tile, t1), ..v }
    }
}

/// The horizontal scroll that register 8 holding `hs` stands for.
pub open spec fn h_scroll_of(hs: u8) -> HorizontalScroll {
    let column_offset = ((32 - hs / 8) % 32) as u8;
    let fine_scroll = (hs % 8) as u8;
    HorizontalScroll { column_offset, fine_scroll, x_offset: (w16i(column_offset * 8 - fine_scroll) % 256) as u16 }
}

/// The scan lines from the current one to the end of the display take the
/// horizontal scroll of register 8.
pub open spec fn h_scroll_spec(v: VdpView) -> VdpView {
    VdpView {
        horizontal_scroll_info: Seq::new(
            192,
            |y: int|
                if v.current_y_pos <= y < v.y_end {
                    h_scroll_of(v.horizontal_scroll)
                } else {
                    v.horizontal_scroll_info[y]
                },
        ),
        ..v
    }
}

/// The scan lines from the current one to the end of the display take the
/// vertical scroll of register 9.
pub open spec fn v_scroll_spec(v: VdpView) -> VdpView {
    VdpView {
        vertical_scroll_info: Seq::new(
            192,
            |y: int| if v.current_y_pos <= y < v.y_end { v.vertical_scroll } else { v.vertical_scroll_info[y] },
        ),
        ..v
    }
}

/// Pattern pixel `k` after a VRAM write at `address` flipped the bits in
/// `change`: the write holds one bit plane (`address & 3`) of one row of
/// eight pixels, leftmost pixel in the top bit.
pub open spec fn pattern_pixel(p4: Seq<u8>, k: int, address: u16, change: u8) -> u8 {
    let index = ((address & 0x3FFC) << 1) as int;
    if index <= k < index + 8 && (change >> ((7 - (k - index)) as u8)) & 1 == 1 {
        p4[k] ^ (1u8 << ((address & 3) as u8))
    } else {
        p4[k]
    }
}

/// A pattern-table write at `address` from `old_data` to `data`.
pub open spec fn pattern_spec(v: VdpView, address: u16, old_data: u8, data: u8) -> VdpView {
    let change = old_data ^ data;
    if change == 0 {
        v
    } else {
        let p = ((address & 0x3FFC) << 1) as int / 64;
        VdpView {
            patterns4: Seq::new(0x8000, |k: int| pattern_pixel(v.patterns4, k, address, change)),
            pattern_info: v.pattern_info.update(
                p,
                PatternInfo { changed: true, colour_check: false, screen_version_cached: false, ..v.pattern_info[p] },
            ),
            ..v
        }
    }
}

/// Whether a VRAM write at `address` lands in the sprite attribute table
/// (and not in the name table).
pub open spec fn in_sprite_table(v: VdpView, address: u16) -> bool {
    !((address & 0x3800) == v.tile_attributes_address && (address & 0x7FF) < 0x700)
        && (address & 0x3F00) == v.sprite_attributes_address && (address & 0xFF) < 0xFF
}

/// Whether a data-port write can be taken: colour-RAM writes always; VRAM
/// writes at a VRAM address outside the sprite attribute table.
pub open spec fn port_be_write_ok(v: VdpView) -> bool {
    v.code_register != 3 ==> v.current_address < 0x4000 && !in_sprite_table(v, v.current_address)
}

/// A write of `data` to the data port 0xBE.
pub open spec fn port_be_write_spec(v: VdpView, data: u8) -> VdpView {
    let v0 = VdpView { address_latch: false, ..v };
    let a = v.current_address;
    let v1 = if v.code_register == 3 {
        palette_spec(v0, a, data)
    } else {
        let old_data = v.ram[a as int];
        let t = if (a & 0x3800) == v.tile_attributes_address && (a & 0x7FF) < 0x700 {
            tile_update_spec(v0, a, old_data, data)
        } else {
            v0
        };
        let p = pattern_spec(t, a, old_data, data);
        VdpView { ram: p.ram.update(a as int, data), read_be_latch: data, ..p }
    };
    VdpView { current_address: w16i(a + 1) & 0x3FFF, ..v1 }
}

/// The display modes this VDP draws: mode 4 (224 lines are not drawn).
pub open spec fn display_mode_ok(m1: u8, m2: u8) -> bool {
    (m1 | m2) == 8 || (m1 | m2) == 0xA
}

/// The state after register 0 was decoded into `m1`.
pub open spec fn with_mode_1(v: VdpView, m1: Mode1Settings) -> VdpView {
    VdpView {
        mode_1_control: m1,
        interrupt_handler: VDPInterrupts { h_sync_interrupt_enabled: m1.h_sync_interrupt_enabled, ..v.interrupt_handler },
        display_mode: m1.display_mode_1 | v.mode_2_control.display_mode_2,
        y_end: 192,
        ..v
    }
}

/// The state after register 1 was decoded into `m2`.
pub open spec fn with_mode_2(v: VdpView, m2: Mode2Settings) -> VdpView {
    VdpView {
        mode_2_control: m2,
        interrupt_handler: VDPInterrupts { v_sync_interrupt_enabled: m2.v_sync_interrupt_enabled, ..v.interrupt_handler },
        display_mode: v.mode_1_control.display_mode_1 | m2.display_mode_2,
        y_end: 192,
        ..v
    }
}

/// Whether register `reg` can take `data`: the register exists, and a mode
/// register leaves a display mode that is drawn.
pub open spec fn register_write_ok(v: VdpView, reg: u8, data: u8) -> bool {
    &&& reg < 16
    &&& reg == 0 ==> display_mode_ok(mode_1_of(data).display_mode_1, v.mode_2_control.display_mode_2)
    &&& reg == 1 ==> display_mode_ok(v.mode_1_control.display_mode_1, mode_2_of(data).display_mode_2)
}

/// Register `reg` set to `data`, and what the register controls updated.
pub open spec fn register_spec(v: VdpView, reg: u8, data: u8) -> VdpView {
    let v1 = VdpView { vdp_register: v.vdp_register.update(reg as int, data), ..v };
    if reg == 0 {
        with_mode_1(v1, mode_1_of(data))
    } else if reg == 1 {
        with_mode_2(v1, mode_2_of(data))
    } else if reg == 2 {
        let t = ((data as u16) & 0xE) << 10;
        VdpView { tile_attributes_address: t, debug_name_table_offset: t, ..v1 }
    } else if reg == 5 {
        let s = ((data as u16) & 0x7E) << 7;
        VdpView { sprite_attributes_address: s, debug_sprite_information_table_offset: s, ..v1 }
    } else if reg == 6 {
        VdpView { sprite_tile_shift: ((data as u16) & 0x4) << 6, ..v1 }
    } else if reg == 7 {
        VdpView { border_colour: data & 0xF, ..v1 }
    } else if reg == 8 {
        h_scroll_spec(VdpView { horizontal_scroll: data, ..v1 })
    } else if reg == 9 {
        v_scroll_spec(VdpView { vertical_scroll: data, ..v1 })
    } else if reg == 10 {
        VdpView { interrupt_handler: VDPInterrupts { line_interrupt: data as u16, ..v1.interrupt_handler }, ..v1 }
    } else {
        v1
    }
}

/// Whether a control-port write can be taken: a second byte that writes a
/// register must suit that register.
pub open spec fn port_bf_write_ok(v: VdpView, data: u8) -> bool {
    v.address_latch && (data & 0xF0) == 0x80 ==> register_write_ok(v, data & 0xF, v.write_bf_low_address)
}

/// A write of `data` to the control port 0xBF: the first byte is the low
/// byte of an address; the second is its high byte and code (and, with
/// 0b1000 in its top nibble, writes the low byte to a register).
pub open spec fn port_bf_write_spec(v: VdpView, data: u8) -> VdpView {
    if !v.address_latch {
        VdpView { write_bf_low_address: data, address_latch: true, ..v }
    } else {
        let v1 = if (data & 0xF0) == 0x80 { register_spec(v, data & 0xF, v.write_bf_low_address) } else { v };
        let a = (((v.write_bf_low_address as u16) + ((data as u16) << 8)) as u16) & 0x3FFF;
        VdpView { current_address: a, code_register: data >> 6, address_latch: false, read_be_latch: v1.ram[a as int], ..v1 }
    }
}

/// The byte read from the control port 0xBF, and the state after.
pub open spec fn port_bf_read_spec(v: VdpView) -> (VdpView, u8) {
    let a = w16i(v.current_address + 1);
    (VdpView { current_address: a, ..v }, a as u8)
}


/// The tile after a name-table write of `data` at `address`.
fn updated_tile_exec(t: TileAttribute, address: u16, data: u8) -> (r: TileAttribute)
    ensures
        r == updated_tile(t, address, data),
        r.tile_number < 512,
{
    let mut t1 = t;
    if 0 != address & Constants::TILEATTRIBUTESHMASK {
        if 0 != t.priority {
            if 0 == (data >> Constants::TILEPRIORITYSHIFT) {
                t1.priority_cleared = true;
            }
        }
        t1.priority = data >> Constants::TILEPRIORITYSHIFT;
        t1.palette_select = 0 != (data >> Constants::TILEPALETTESHIFT) & 0x1;
        t1.vertical_flip = 0 != (data >> Constants::TILEVFLIPSHIFT) & 0x1;
        t1.horizontal_flip = 0 != (data >> Constants::TILEHFLIPSHIFT) & 0x1;
        t1.tile_number = (t.tile_number & 0xFF) | (((data as u16) & 0x1) << 8);
    } else {
        t1.tile_number = (t.tile_number & 0x100) | (data as u16);
    }
    t1.changed = true;
    let tn = t.tile_number;
    let dw = data as u16;
    assert((tn & 0xFF) | ((dw & 0x1) << 8) < 512 && (tn & 0x100) | dw < 512) by (bit_vector)
        requires
            dw < 256,
    ;
    t1
}

impl VDP {
    pub const SMS_WIDTH: u16 = 256;
    pub const SMS_HEIGHT: u16 = 192;
    pub const FRAME_WIDTH: u16 = 256;
    pub const FRAME_HEIGHT: u16 = 192;
    pub const PIXEL_WIDTH: u16 = 2;
    pub const PIXEL_HEIGHT: u16 = 2;
    pub const START_DRAW_Y: u16 = 0;
    pub const END_DRAW_Y: u16 = 192;

    /// A VDP just switched on.
    pub fn new() -> (r: Self)
        ensures
            r@ == initial_vdp(),
            vdp_wf(r@),
    {
        let r = Self {
            ram: vec![0u8; 0x4000],
            c_ram: vec![0u8; 0x20],
            vdp_register: [0u8; 16],
            horizontal_scroll_info: vec![HorizontalScroll::default(); 192],
            vertical_scroll_info: vec![0u8; 192],
            pattern_info: vec![PatternInfo::default(); 512],
            screen_palette: vec![Colour::new(0, 0, 0); 0x20],
            patterns4: vec![0u8; 0x8000],
            tile_attributes: vec![TileAttribute::default(); 0x700],
            mode_1_control: Mode1Settings::new(),
            mode_2_control: Mode2Settings::new(),
            current_address: 0,
            sprite_attributes_address: 0,
            tile_attributes_address: 0,
            write_bf_low_address: 0,
            border_colour: 0,
            code_register: 0,
            read_be_latch: 0,
            address_latch: false,
            last_v_sync_clock: Clock::new(),
            current_y_pos: 0,
            display_mode: 0,
            y_end: 0,
            interrupt_handler: VDPInterrupts::new(),
            sprite_tile_shift: 0,
            horizontal_scroll: 0,
            vertical_scroll: 0,
            debug_name_table_offset: 0,
            debug_sprite_information_table_offset: 0,
        };
        assert(r@.ram =~= initial_vdp().ram);
        assert(r@.c_ram =~= initial_vdp().c_ram);
        assert(r@.vdp_register =~= initial_vdp().vdp_register);
        assert(r@.horizontal_scroll_info =~= initial_vdp().horizontal_scroll_info);
        assert(r@.vertical_scroll_info =~= initial_vdp().vertical_scroll_info);
        assert(r@.pattern_info =~= initial_vdp().pattern_info);
        assert(r@.screen_palette =~= initial_vdp().screen_palette);
        assert(r@.patterns4 =~= initial_vdp().patterns4);
        assert(r@.tile_attributes =~= initial_vdp().tile_attributes);
        r
    }

    /// Has no effect: the address is set through the control port.
    pub fn set_address(&mut self, value: u16)
        ensures
            final(self)@ == old(self)@,
    {
    }

    /// The VRAM address that the next data-port access uses.
    pub fn get_address(&self) -> (r: u16)
        ensures
            r == self@.current_address,
    {
        self.current_address
    }

    /// Port 0x7E: the scan line counter at `clock` (lines since the last
    /// frame started).
    pub fn read_port_7e(&mut self, clock: &Clock) -> (r: u8)
        requires
            vdp_wf(old(self)@),
        ensures
            (final(self)@, r) == port_7e_spec(old(self)@, clock.cycles),
            vdp_wf(final(self)@),
    {
        self.address_latch = false;
        let elapsed = clock.cycles.wrapping_sub(self.last_v_sync_clock.cycles);
        let lines = elapsed / (Constants::HSYNCCYCLETIME as u32);
        let v_counter = lines as u8;
        assert(lines < 0x1000_0000) by (nonlinear_arith)
            requires
                lines == elapsed / 216,
                elapsed <= 0xFFFF_FFFF,
        ;
        self.current_y_pos = (lines + 1) as u16;
        v_counter
    }

    /// Port 0x7F: the horizontal counter, which reads as 0.
    pub fn read_port_7f(&mut self, clock: &Clock) -> (r: u8)
        ensures
            final(self)@ == (VdpView { address_latch: false, ..old(self)@ }),
            r == 0,
    {
        self.address_latch = false;
        0
    }

    /// Port 0xBE: the latched VRAM byte; the next one is latched.
    pub fn read_port_be(&mut self, clock: &Clock) -> (r: u8)
        requires
            vdp_wf(old(self)@),
        ensures
            (final(self)@, r) == port_be_read_spec(old(self)@),
            vdp_wf(final(self)@),
    {
        self.address_latch = false;
        let data = self.read_be_latch;
        let next = self.current_address.wrapping_add(1);
        proof {
            crate::bits::lemma_u16_bits(next);
        }
        self.current_address = next & 0x3FFF;
        self.read_be_latch = self.ram[self.current_address as usize];
        data
    }

    /// Port 0xBF read: the address moves on, and its low byte is returned.
    pub fn read_port_bf(&mut self, clock: &Clock) -> (r: u8)
        ensures
            (final(self)@, r) == port_bf_read_spec(old(self)@),
    {
        self.current_address = self.current_address.wrapping_add(1);
        self.current_address as u8
    }

    /// Compute the set of colours that `pattern` uses.
    pub fn check_pattern_colors(&mut self, pattern: u16)
        requires
            vdp_wf(old(self)@),
            pattern < 512,
        ensures
            final(self)@ == (VdpView {
                pattern_info: old(self)@.pattern_info.update(
                    pattern as int,
                    checked_pattern(old(self)@.pattern_info[pattern as int], old(self)@.patterns4, pattern as int),
                ),
                ..old(self)@
            }),
            vdp_wf(final(self)@),
    {
        let mut colours: u16 = 0;
        let mut i: u16 = 0;
        while i < Constants::PATTERNSIZE as u16
            invariant
                vdp_wf(self@),
                pattern < 512,
                i <= 64,
                colours == colour_mask(self@.patterns4, pattern as int, i as nat),
            decreases 64 - i,
        {
            let pixel = self.patterns4[(pattern * 64 + i) as usize];
            colours = colours | (1u16 << pixel);
            i = i + 1;
        }
        let mut info = self.pattern_info[pattern as usize];
        info.colours = colours;
        info.colour_check = true;
        self.pattern_info.set(pattern as usize, info);
    }

    /// Write `data` to colour RAM at `address` (modulo its 32 entries).
    pub fn set_palette(&mut self, address: u16, data: u8)
        requires
            vdp_wf(old(self)@),
        ensures
            final(self)@ == palette_spec(old(self)@, address, data),
            vdp_wf(final(self)@),
    {
        let ghost v = self@;
        let addr = (address as u8) % Constants::CRAMSIZE;
        if self.c_ram[addr as usize] != data {
            self.c_ram.set(addr as usize, data);
            proof {
                crate::bits::lemma_u8_bits(data);
            }
            let r = (((data & 0x3) as u16) * 0xFF) / 0x3;
            let g = ((((data >> 2) & 0x3) as u16) * 0xFF) / 0x3;
            let b = ((((data >> 4) & 0x3) as u16) * 0xFF) / 0x3;
            let colour = Colour::new(r as u8, g as u8, b as u8);
            self.screen_palette.set(addr as usize, colour);
            let ghost mid = self@;
            let colour_bit = addr & 0xF;
            proof {
                crate::bits::lemma_u8_bits(addr);
            }
            let mut i: usize = 0;
            while i < Constants::MAXPATTERNS as usize
                invariant
                    vdp_wf(self@),
                    i <= 512,
                    addr < 32,
                    colour_bit == addr & 0xF,
                    colour_bit < 16,
                    self@ == (VdpView { pattern_info: self@.pattern_info, ..mid }),
                    mid.patterns4 == v.patterns4,
                    mid.pattern_info == v.pattern_info,
                    forall|j: int| 0 <= j < i ==> #[trigger] self@.pattern_info[j] == refreshed_pattern(v.pattern_info[j], v.patterns4, j, addr),
                    forall|j: int| i <= j < 512 ==> #[trigger] self@.pattern_info[j] == v.pattern_info[j],
                decreases 512 - i,
            {
                if self.pattern_info[i].colour_check == false {
                    self.check_pattern_colors(i as u16);
                }
                let mut info = self.pattern_info[i];
                if 0 != info.colours & (1u16 << colour_bit) {
                    info.changed = true;
                    info.screen_version_cached = false;
                    self.pattern_info.set(i, info);
                }
                i = i + 1;
            }
            assert(self@.pattern_info =~= palette_spec(v, address, data).pattern_info);
            assert(self@ =~= palette_spec(v, address, data));
        }
    }

    /// A name-table write at `address` changed the byte from `old_data` to
    /// `data`: update the tile and the reference counts of its patterns.
    #[verifier::spinoff_prover]
    #[verifier::rlimit(60)]
    pub fn update_tile_attributes(&mut self, address: u16, old_data: u8, data: u8)
        requires
            vdp_wf(old(self)@),
        ensures
            final(self)@ == tile_update_spec(old(self)@, address, old_data, data),
            vdp_wf(final(self)@),
    {
        let ghost v = self@;
        if old_data != data {
            proof {
                crate::bits::lemma_u16_bits(address);
            }
            let tile = (address & Constants::TILEATTRIBUTESTILEMASK) >> Constants::TILESHIFT;
            assert(tile < 0x400);
            let t = self.tile_attributes[tile as usize];
            let n0 = t.tile_number;
            let mut p0 = self.pattern_info[n0 as usize];
            p0.references = p0.references.wrapping_sub(1);
            self.pattern_info.set(n0 as usize, p0);
            let t1 = updated_tile_exec(t, address, data);
            // The tile now names this pattern.
            let n1 = t1.tile_number;
            let mut p1 = self.pattern_info[n1 as usize];
            p1.references = p1.references.wrapping_add(1);
            self.pattern_info.set(n1 as usize, p1);
            self.tile_attributes.set(tile as usize, t1);
            assert(self@ =~= tile_update_spec(v, address, old_data, data));
        }
    }

    /// A pattern-table write at `address` changed the byte from `old_data`
    /// to `data`: flip the changed bits of that bit plane of the row.
    pub fn update_pattern(&mut self, address: u16, old_data: u8, data: u8)
        requires
            vdp_wf(old(self)@),
        ensures
            final(self)@ == pattern_spec(old(self)@, address, old_data, data),
            vdp_wf(final(self)@),
    {
        let ghost v = self@;
        let change0 = old_data ^ data;
        let mut change = change0;
        if change != 0 {
            let index = (address & 0x3FFC) << 1;
            let plane = (address & 0x3) as u8;
            assert(index as int + 7 < 0x8000 && index as int % 8 == 0 && plane < 4) by (bit_vector)
                requires
                    index == (address & 0x3FFC) << 1,
                    plane == (address & 0x3) as u8,
            ;
            let mask: u8 = 1u8 << plane;
            assert(mask == 1 || mask == 2 || mask == 4 || mask == 8) by (bit_vector)
                requires
                    mask == 1u8 << plane,
                    plane < 4,
            ;
            let mut x: u16 = 7;
            let mut j: u8 = 0;
            proof {
                crate::bits::lemma_u8_bits(change0);
            }
            while 0 != change
                invariant
                    vdp_wf(self@),
                    j <= 8,
                    change == change0 >> j,
                    x == if j <= 7 { 7 - j } else { 0 },
                    index as int + 7 < 0x8000,
                    mask == 1 || mask == 2 || mask == 4 || mask == 8,
                    mask == 1u8 << ((address & 3) as u8),
                    index == (address & 0x3FFC) << 1,
                    self@ == (VdpView { patterns4: self@.patterns4, ..v }),
                    forall|k: int| 0 <= k < 0x8000 ==> #[trigger] self@.patterns4[k] == (
                        if index <= k < index + 8 && (7 - (k - index)) < j { pattern_pixel(v.patterns4, k, address, change0) }
                        else { v.patterns4[k] }),
                decreases 8 - j,
            {
                assert(j < 8) by {
                    if j >= 8 {
                        crate::bits::lemma_u8_bits(change0);
                    }
                }
                let ghost before = self@.patterns4;
                let k = (index + x) as usize;
                if 0 != change & 0x1 {
                    let p = self.patterns4[k];
                    proof {
                        crate::bits::lemma_flip_low_bit(p, mask);
                    }
                    self.patterns4.set(k, p ^ mask);
                }
                proof {
                    let jj = j;
                    let c = change;
                    assert((c >> 1u8) == change0 >> ((jj + 1) as u8) && ((c & 1 != 0) == ((change0 >> jj) & 1 == 1))) by (bit_vector)
                        requires
                            c == change0 >> jj,
                            jj < 8,
                    ;
                    assert forall|kk: int| 0 <= kk < 0x8000 implies #[trigger] self@.patterns4[kk] == (
                        if index <= kk < index + 8 && (7 - (kk - index)) < j + 1 { pattern_pixel(v.patterns4, kk, address, change0) }
                        else { v.patterns4[kk] }) by {
                        if kk == k as int {
                            assert(7 - (kk - index) == j);
                        }
                    }
                }
                if x > 0 {
                    x = x - 1;
                }
                change = change >> 1;
                j = j + 1;
            }
            proof {
                assert forall|kk: int| 0 <= kk < 0x8000 implies #[trigger] self@.patterns4[kk] == pattern_pixel(v.patterns4, kk, address, change0) by {
                    if index <= kk < index + 8 && (7 - (kk - index)) >= j {
                        let b = (7 - (kk - index)) as u8;
                        let jj = j;
                        assert((change0 >> b) & 1 == 0) by (bit_vector)
                            requires
                                change0 >> jj == 0,
                                jj <= b,
                                b < 8,
                        ;
                    }
                }
                assert forall|kk: int| 0 <= kk < 0x8000 implies #[trigger] pattern_pixel(v.patterns4, kk, address, change0) < 16 by {
                    let pv = v.patterns4[kk];
                    crate::bits::lemma_flip_low_bit(pv, mask);
                }
            }
            let pattern = (index >> 6) as usize;
            assert(pattern == index as int / 64 && pattern < 512) by (bit_vector)
                requires
                    pattern == (index >> 6) as usize,
                    index as int + 7 < 0x8000,
            ;
            let mut info = self.pattern_info[pattern];
            info.changed = true;
            info.colour_check = false;
            info.screen_version_cached = false;
            self.pattern_info.set(pattern, info);
            assert(self@.patterns4 =~= pattern_spec(v, address, old_data, data).patterns4);
            assert(self@ =~= pattern_spec(v, address, old_data, data));
        }
    }

    /// Register 8 changed: the remaining scan lines take the new horizontal
    /// scroll.
    pub fn update_horizontal_scroll_info(&mut self)
        requires
            vdp_wf(old(self)@),
        ensures
            final(self)@ == h_scroll_spec(old(self)@),
            vdp_wf(final(self)@),
    {
        let ghost v = self@;
        let hs = self.horizontal_scroll;
        proof {
            crate::bits::lemma_u8_bits(hs);
        }
        let column_offset = (0x20 - (hs >> 3)) & 0x1F;
        proof {
            crate::bits::lemma_u8_bits((0x20 - (hs >> 3)) as u8);
        }
        let fine_scroll = hs & 0x7;
        let x_offset = ((column_offset as u16) * (Constants::PATTERNWIDTH as u16)).wrapping_sub(fine_scroll as u16)
            % Constants::SMS_WIDTH;
        assert(HorizontalScroll { column_offset, fine_scroll, x_offset } == h_scroll_of(hs));
        let entry = HorizontalScroll { column_offset, fine_scroll, x_offset };
        let mut y: usize = self.current_y_pos as usize;
        let end = self.y_end as usize;
        while y < end
            invariant
                vdp_wf(self@),
                end == v.y_end,
                end <= 192,
                v.current_y_pos <= y || end <= y,
                entry == h_scroll_of(v.horizontal_scroll),
                self@ == (VdpView { horizontal_scroll_info: self@.horizontal_scroll_info, ..v }),
                forall|k: int| 0 <= k < 192 ==> #[trigger] self@.horizontal_scroll_info[k] == (
                    if v.current_y_pos <= k < y && k < end { entry } else { v.horizontal_scroll_info[k] }),
            decreases end - y,
        {
            self.horizontal_scroll_info.set(y, entry);
            y = y + 1;
        }
        assert(self@.horizontal_scroll_info =~= h_scroll_spec(v).horizontal_scroll_info);
        assert(self@ =~= h_scroll_spec(v));
    }

    /// Register 9 changed: the remaining scan lines take the new vertical
    /// scroll.
    pub fn update_vertical_scroll_info(&mut self)
        requires
            vdp_wf(old(self)@),
        ensures
            final(self)@ == v_scroll_spec(old(self)@),
            vdp_wf(final(self)@),
    {
        let ghost v = self@;
        let mut y: usize = self.current_y_pos as usize;
        let end = self.y_end as usize;
        while y < end
            invariant
                vdp_wf(self@),
                end == v.y_end,
                end <= 192,
                v.current_y_pos <= y || end <= y,
                self@ == (VdpView { vertical_scroll_info: self@.vertical_scroll_info, ..v }),
                forall|k: int| 0 <= k < 192 ==> #[trigger] self@.vertical_scroll_info[k] == (
                    if v.current_y_pos <= k < y && k < end { v.vertical_scroll } else { v.vertical_scroll_info[k] }),
            decreases end - y,
        {
            self.vertical_scroll_info.set(y, self.vertical_scroll);
            y = y + 1;
        }
        assert(self@.vertical_scroll_info =~= v_scroll_spec(v).vertical_scroll_info);
        assert(self@ =~= v_scroll_spec(v));
    }

    /// Port 0xBE write: `data` goes to colour RAM (code 3) or to VRAM, with
    /// the name-table and pattern caches kept up to date; the address moves on.
    pub fn write_port_be(&mut self, clock: &Clock, data: u8)
        requires
            vdp_wf(old(self)@),
            port_be_write_ok(old(self)@),
        ensures
            final(self)@ == port_be_write_spec(old(self)@, data),
            vdp_wf(final(self)@),
    {
        let ghost v = self@;
        self.address_latch = false;
        let a = self.current_address;
        if self.code_register == 0x3 {
            self.set_palette(a, data);
        } else {
            let old_data = self.ram[a as usize];
            if ((a & Constants::TILEATTRIBUTESADDRESSMASK) == self.tile_attributes_address) && ((a
                & Constants::TILEATTRIBUTEMASK) < Constants::NUMTILEATTRIBUTES) {
                self.update_tile_attributes(a, old_data, data);
            }
            if a < Constants::PATTERNADDRESSLIMIT {
                self.update_pattern(a, old_data, data);
            }
            self.ram.set(a as usize, data);
            self.read_be_latch = data;
        }
        self.current_address = a.wrapping_add(1) & 0x3FFF;
        assert(self@ =~= port_be_write_spec(v, data));
    }

    /// Mode register 0 changed: decode it and the display mode.
    pub fn update_mode_1_control(&mut self)
        requires
            vdp_wf(old(self)@),
            display_mode_ok(mode_1_of(old(self)@.vdp_register[0]).display_mode_1, old(self)@.mode_2_control.display_mode_2),
        ensures
            final(self)@ == with_mode_1(old(self)@, mode_1_of(old(self)@.vdp_register[0])),
            vdp_wf(final(self)@),
    {
        self.mode_1_control.update_mode_1_settings(self.vdp_register[Constants::MODE_CONTROL_NO_1 as usize]);
        self.interrupt_handler.h_sync_interrupt_enabled = self.mode_1_control.h_sync_interrupt_enabled;
        self.update_display_mode(self.mode_1_control.display_mode_1, self.mode_2_control.display_mode_2);
    }

    /// Mode register 1 changed: decode it and the display mode.
    pub fn update_mode_2_control(&mut self)
        requires
            vdp_wf(old(self)@),
            display_mode_ok(old(self)@.mode_1_control.display_mode_1, mode_2_of(old(self)@.vdp_register[1]).display_mode_2),
        ensures
            final(self)@ == with_mode_2(old(self)@, mode_2_of(old(self)@.vdp_register[1])),
            vdp_wf(final(self)@),
    {
        self.mode_2_control.update_mode_2_settings(self.vdp_register[Constants::MODE_CONTROL_NO_2 as usize]);
        self.interrupt_handler.v_sync_interrupt_enabled = self.mode_2_control.v_sync_interrupt_enabled;
        self.update_display_mode(self.mode_1_control.display_mode_1, self.mode_2_control.display_mode_2);
    }

    fn update_display_mode(&mut self, display_mode_1: u8, display_mode_2: u8)
        requires
            display_mode_ok(display_mode_1, display_mode_2),
        ensures
            final(self)@ == (VdpView { display_mode: display_mode_1 | display_mode_2, y_end: 192, ..old(self)@ }),
    {
        self.display_mode = display_mode_1 | display_mode_2;
        self.y_end = 192;
    }

    /// Set VDP register `register_number` to `data` and apply what it controls.
    pub fn write_register(&mut self, register_number: u8, data: u8)
        requires
            vdp_wf(old(self)@),
            register_write_ok(old(self)@, register_number, data),
        ensures
            final(self)@ == register_spec(old(self)@, register_number, data),
            vdp_wf(final(self)@),
    {
        let ghost v = self@;
        self.vdp_register[register_number as usize] = data;
        match register_number {
            0 => {
                self.update_mode_1_control();
            },
            1 => {
                self.update_mode_2_control();
            },
            2 => {
                self.tile_attributes_address = ((data as u16) & 0xE) << 10;
                self.debug_name_table_offset = self.tile_attributes_address;
            },
            5 => {
                self.sprite_attributes_address = ((data as u16) & 0x7E) << 7;
                self.debug_sprite_information_table_offset = self.sprite_attributes_address;
            },
            6 => {
                self.sprite_tile_shift = ((data as u16) & 0x4) << 6;
            },
            7 => {
                self.border_colour = data & 0xf;
            },
            8 => {
                self.horizontal_scroll = data;
                self.update_horizontal_scroll_info();
            },
            9 => {
                self.vertical_scroll = data;
                self.update_vertical_scroll_info();
            },
            10 => {
                self.interrupt_handler.line_interrupt = data as u16;
            },
            _ => {},
        }
        assert(self@ =~= register_spec(v, register_number, data));
    }

    /// Port 0xBF write: the first byte is latched as an address's low byte;
    /// the second sets the address and code, and may write a register.
    pub fn write_port_bf(&mut self, clock: &Clock, data: u8)
        requires
            vdp_wf(old(self)@),
            port_bf_write_ok(old(self)@, data),
        ensures
            final(self)@ == port_bf_write_spec(old(self)@, data),
            vdp_wf(final(self)@),
    {
        let ghost v = self@;
        if false == self.address_latch {
            self.write_bf_low_address = data;
            self.address_latch = true;
        } else {
            if (data & Constants::REGISTERUPDATEMASK) == Constants::REGISTERUPDATEVALUE {
                proof {
                    crate::bits::lemma_u8_bits(data);
                }
                assert(data & 0xF < 16);
                self.write_register(data & Constants::REGISTERMASK, self.write_bf_low_address);
            }
            let low = self.write_bf_low_address as u16;
            let high = (data as u16) << 8;
            proof {
                crate::bits::lemma_u8_bits(data);
            }
            assert(high <= 0xFF00);
            let a = (low + high) & 0x3FFF;
            proof {
                crate::bits::lemma_u16_bits((low + high) as u16);
            }
            self.current_address = a;
            self.code_register = data >> 6;
            self.address_latch = false;
            self.read_be_latch = self.ram[a as usize];
        }
        assert(self@ =~= port_bf_write_spec(v, data));
    }
}

impl VDP {
    /// Whether a write of `value` to I/O port `port_address` can be taken.
    pub fn accepts_write(&self, port_address: u8, value: u8) -> (r: bool)
        ensures
            r == vdp_write_ok(self@, port_address, value),
    {
        if port_address & 0x1 == 0 {
            if self.code_register == 0x3 {
                true
            } else {
                let a = self.current_address;
                let in_tiles = (a & Constants::TILEATTRIBUTESADDRESSMASK) == self.tile_attributes_address
                    && (a & Constants::TILEATTRIBUTEMASK) < Constants::NUMTILEATTRIBUTES;
                let in_sprites = !in_tiles && (a & Constants::SPRITEATTRIBUTESADDRESSMASK) == self.sprite_attributes_address
                    && (a & Constants::SPRITEATTRIBUTESMASK) < Constants::NUMSPRITEATTRIBUTES;
                a < Constants::PATTERNADDRESSLIMIT && !in_sprites
            }
        } else if self.address_latch && (value & Constants::REGISTERUPDATEMASK) == Constants::REGISTERUPDATEVALUE {
            let reg = value & Constants::REGISTERMASK;
            let low = self.write_bf_low_address;
            proof {
                crate::bits::lemma_u8_bits(value);
            }
            if reg == 0 {
                let m4: u8 = if 0 != (low & Constants::VDP0M4) { 8 } else { 0 };
                let m2: u8 = if 0 != (low & Constants::VDP0M2) { 2 } else { 0 };
                let mode = (m4 | m2) | self.mode_2_control.display_mode_2;
                mode == 8 || mode == 0xA
            } else if reg == 1 {
                let m3: u8 = if 0 != (low & Constants::VDP1M3) { 4 } else { 0 };
                let m1: u8 = if 0 != (low & Constants::VDP1M1) { 1 } else { 0 };
                let mode = self.mode_1_control.display_mode_1 | (m3 | m1);
                mode == 8 || mode == 0xA
            } else {
                true
            }
        } else {
            true
        }
    }
}

/// Something wired to the CPU's I/O ports.
pub trait Device: Sized {
    /// What the device keeps between calls.
    spec fn ready(&self) -> bool;

    /// Whether the device can take `value` written to `port_address`.
    spec fn accepts_write(&self, port_address: u8, value: u8) -> bool;

    /// Advance to `clock`; whether an interrupt is requested.
    fn poll_interrupts(&mut self, raw_display: &mut Vec<u8>, clock: &Clock) -> (r: bool)
        requires
            old(self).ready(),
        ensures
            final(self).ready(),
    ;

    fn port_write(&mut self, clock: &Clock, port_address: u8, value: u8)
        requires
            old(self).ready(),
            old(self).accepts_write(port_address, value),
        ensures
            final(self).ready(),
    ;

    fn port_read(&mut self, clock: &Clock, port_address: u8) -> (r: u8)
        requires
            old(self).ready(),
        ensures
            final(self).ready(),
    ;
}

/// A read of I/O port `port` from the VDP at clock `cycles`: the value and
/// the state after.
pub open spec fn vdp_port_read_spec(v: VdpView, cycles: u32, port: u8) -> (VdpView, u8) {
    if port == 0xbe {
        port_be_read_spec(v)
    } else if port == 0xbf {
        port_bf_read_spec(v)
    } else if (port & 0xC1) == 0x41 || (port & 0xC1) == 0x40 {
        port_7e_spec(v, cycles)
    } else {
        (v, 0)
    }
}

/// Whether the VDP can take `value` written to I/O port `port`.
pub open spec fn vdp_write_ok(v: VdpView, port: u8, value: u8) -> bool {
    if port & 1 == 0 { port_be_write_ok(v) } else { port_bf_write_ok(v, value) }
}

/// A write of `value` to I/O port `port`: even ports are the data port,
/// odd ones the control port.
pub open spec fn vdp_port_write_spec(v: VdpView, port: u8, value: u8) -> VdpView {
    if port & 1 == 0 { port_be_write_spec(v, value) } else { port_bf_write_spec(v, value) }
}

impl Device for VDP {
    open spec fn ready(&self) -> bool {
        vdp_wf(self@)
    }

    open spec fn accepts_write(&self, port_address: u8, value: u8) -> bool {
        vdp_write_ok(self@, port_address, value)
    }

    fn poll_interrupts(&mut self, raw_display: &mut Vec<u8>, clock: &Clock) -> (r: bool)
        ensures
            (final(self)@.interrupt_handler, r) == poll_spec(old(self)@.interrupt_handler, clock.cycles),
            final(self)@ == (VdpView { interrupt_handler: final(self)@.interrupt_handler, ..old(self)@ }),
            final(raw_display)@ == old(raw_display)@,
    {
        self.interrupt_handler.poll_interrupts(clock)
    }

    fn port_write(&mut self, clock: &Clock, port_address: u8, value: u8)
        ensures
            final(self)@ == vdp_port_write_spec(old(self)@, port_address, value),
    {
        if port_address & 0x1 == 0 {
            self.write_port_be(clock, value);
        } else {
            self.write_port_bf(clock, value);
        }
    }

    fn port_read(&mut self, clock: &Clock, port_address: u8) -> (r: u8)
        ensures
            (final(self)@, r) == vdp_port_read_spec(old(self)@, clock.cycles, port_address),
    {
        if port_address == 0xbe {
            self.read_port_be(clock)
        } else if port_address == 0xbf {
            self.read_port_bf(clock)
        } else if (port_address & 0xC1) == 0x41 {
            self.read_port_7e(clock)
        } else if (port_address & 0xC1) == 0x40 {
            self.read_port_7e(clock)
        } else {
            0
        }
    }
}

impl crate::interruptor::PollForInterrupt for VDPInterrupts {
    fn poll_interrupts(&mut self, clock: &Clock) -> (r: bool)
        ensures
            (*final(self), r) == poll_spec(*old(self), clock.cycles),
    {
        VDPInterrupts::poll_interrupts(self, clock)
    }
}

} // verus!
