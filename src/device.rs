//! The IT8951 controller on a command channel, and the banded update of a
//! screen region.

use vstd::prelude::*;
use vstd::slice::slice_subrange;
use crate::commands::{
    area_bytes, command_bytes, display_area_bytes, system_info_decodes, system_info_of, Area,
    Command, DecodeError, DisplayArea, Mode, SystemInfo, AREA_LEN, DISPLAY_AREA_LEN,
    INQUIRY_LEN, SYSTEM_INFO_LEN,
};
use crate::usb::{
    cbw_bytes, cbw_tag, lemma_cbw_tag, lemma_tag_plus_add, tag_plus, with_tag, ConnectionView,
    Direction, ScsiOverUsbConnection, Transaction, TransactionView,
};

verus! {

/// Why a region update was refused before any command was framed.
#[derive(Clone, Copy, PartialEq, Eq, Debug, Structural)]
pub enum ConfigError {
    /// The width is zero, or one row of pixels does not fit in a transfer
    /// beside the area header.
    InvalidGeometry,
    /// The panel's system information has not been stored yet.
    NoSystemInfo,
}

/// The transaction that loads `data` into `area`, framed on `conn`.
pub open spec fn load_transaction(conn: ConnectionView, area: Area, data: Seq<u8>) -> TransactionView {
    TransactionView::fresh(
        cbw_bytes(
            conn.tag,
            (AREA_LEN + data.len()) as u32,
            Direction::OUT,
            command_bytes(Command::LoadImageArea),
        ),
        Direction::OUT,
        area_bytes(area) + data,
        0,
        conn.max_halt_clears,
    )
}

/// The transaction that refreshes `d`, framed on `conn`.
pub open spec fn display_transaction(conn: ConnectionView, d: DisplayArea) -> TransactionView {
    TransactionView::fresh(
        cbw_bytes(
            conn.tag,
            DISPLAY_AREA_LEN as u32,
            Direction::OUT,
            command_bytes(Command::DisplayArea),
        ),
        Direction::OUT,
        display_area_bytes(d),
        0,
        conn.max_halt_clears,
    )
}

/// How many rows of `width` bytes fit in one transfer of `max_transfer` bytes
/// beside the area header; 0 for a zero width.
#[verifier::opaque]
pub open spec fn row_capacity(max_transfer: u32, width: u32) -> nat {
    if width == 0 || max_transfer < AREA_LEN {
        0
    } else {
        ((max_transfer - AREA_LEN) / (width as int)) as nat
    }
}

/// How many bands of `cap` rows cover `height` rows: the ceiling of their ratio.
#[verifier::opaque]
pub open spec fn band_count(height: nat, cap: nat) -> nat
    recommends
        cap > 0,
{
    ((height + cap - 1) / (cap as int)) as nat
}

/// The number of rows of band `k`: `cap`, or what is left for the last band.
pub open spec fn band_rows(k: nat, height: nat, cap: nat) -> nat {
    if height - k * cap < cap {
        (height - k * cap) as nat
    } else {
        cap
    }
}

/// The load of band `k` of a region update framed on `conn`: its rows at
/// `y + k * cap`, taken from `pixels`.
#[verifier::opaque]
pub open spec fn band_load(
    conn: ConnectionView,
    address: u32,
    pixels: Seq<u8>,
    width: u32,
    height: u32,
    x: u32,
    y: u32,
    cap: nat,
    k: nat,
) -> TransactionView {
    let rows = band_rows(k, height as nat, cap);
    load_transaction(
        conn.after_commands(k),
        Area { address, x, y: (y + k * cap) as u32, w: width, h: rows as u32 },
        pixels.subrange(k * cap * width, (k * cap + rows) * width),
    )
}

/// The transactions of a region update framed on `conn`: for each band `k`
/// of `cap` rows, a load of its rows at `y + k * cap`, then one refresh of
/// the whole region.
#[verifier::opaque]
pub open spec fn region_plan(
    conn: ConnectionView,
    address: u32,
    pixels: Seq<u8>,
    width: u32,
    height: u32,
    x: u32,
    y: u32,
    mode: Mode,
    max_transfer: u32,
) -> Seq<TransactionView> {
    let cap = row_capacity(max_transfer, width);
    let n = band_count(height as nat, cap);
    Seq::new(
        n + 1,
        |k: int|
            if k < n {
                band_load(conn, address, pixels, width, height, x, y, cap, k as nat)
            } else {
                display_transaction(
                    conn.after_commands(n),
                    DisplayArea {
                        address,
                        display_mode: mode,
                        x,
                        y,
                        w: width,
                        h: height,
                        wait_ready: 1,
                    },
                )
            },
    )
}

/// Band `k` starts inside the region exactly when `k` is below the band count.
proof fn lemma_band_index(height: nat, cap: nat, k: nat)
    requires
        cap > 0,
    ensures
        (k < band_count(height, cap)) <==> (k * cap < height),
{
    reveal(band_count);
    let t: int = height + cap - 1;
    let n: int = t / (cap as int);
    vstd::arithmetic::div_mod::lemma_fundamental_div_mod(t, cap as int);
    vstd::arithmetic::div_mod::lemma_mod_bound(t, cap as int);
    let r: int = t % (cap as int);
    assert(t == cap * n + r);
    if k < n {
        assert(k * cap < height) by (nonlinear_arith)
            requires
                k + 1 <= n,
                t == cap * n + r,
                0 <= r,
                t == height + cap - 1,
                cap > 0,
        ;
    } else {
        assert(k * cap >= height) by (nonlinear_arith)
            requires
                k >= n,
                t == cap * n + r,
                r < cap,
                t == height + cap - 1,
                cap > 0,
        ;
    }
}

/// One band further: where band `k` starts inside the region, it starts at
/// row `k * cap`, and the next one starts `band_rows` later, or the region ends.
proof fn lemma_band_step(height: nat, cap: nat, k: nat, row: nat, w: nat)
    requires
        cap > 0,
        row == (if k * cap < height {
            k * cap
        } else {
            height
        }),
        row < height,
    ensures
        k < band_count(height, cap),
        row == k * cap,
        band_rows(k, height, cap) == (if height - row < cap {
            (height - row) as nat
        } else {
            cap
        }),
        row + band_rows(k, height, cap) == (if (k + 1) * cap < height {
            (k + 1) * cap
        } else {
            height
        }),
        (row + band_rows(k, height, cap)) * w <= height * w,
        (row + band_rows(k, height, cap)) * w == row * w + band_rows(k, height, cap) * w,
        band_rows(k, height, cap) * w <= cap * w,
        height * w == w * height,
{
    assert(height * w == w * height) by (nonlinear_arith);
    lemma_band_index(height, cap, k);
    let rows = band_rows(k, height, cap);
    assert((k + 1) * cap == k * cap + cap) by (nonlinear_arith);
    assert(rows * w <= cap * w) by (nonlinear_arith)
        requires
            rows <= cap,
    ;
    assert((row + rows) * w <= height * w) by (nonlinear_arith)
        requires
            row + rows <= height,
    ;
    assert((row + rows) * w == row * w + rows * w) by (nonlinear_arith);
}

/// Whole rows of `width` bytes that fit beside the header do fit.
proof fn lemma_row_capacity_fits(max_transfer: u32, width: u32)
    requires
        width > 0,
        max_transfer >= AREA_LEN,
    ensures
        row_capacity(max_transfer, width) * width <= max_transfer - AREA_LEN,
{
    reveal(row_capacity);
    let a: int = max_transfer - AREA_LEN;
    vstd::arithmetic::div_mod::lemma_fundamental_div_mod(a, width as int);
    vstd::arithmetic::div_mod::lemma_mod_bound(a, width as int);
    vstd::arithmetic::mul::lemma_mul_is_commutative(width as int, a / (width as int));
}

/// The tag of a transaction's command block wrapper.
#[verifier::opaque]
pub open spec fn transaction_tag(t: TransactionView) -> u32 {
    cbw_tag(t.cbw)
}

/// A transaction `t` with the tag of its command block wrapper replaced.
pub open spec fn retagged(t: TransactionView, tag: u32) -> TransactionView {
    TransactionView { cbw: with_tag(t.cbw, tag), ..t }
}

/// A load framed on another channel state differs in its tag alone.
proof fn lemma_load_retag(c1: ConnectionView, c2: ConnectionView, area: Area, data: Seq<u8>)
    requires
        c1.max_halt_clears == c2.max_halt_clears,
    ensures
        transaction_tag(load_transaction(c1, area, data)) == c1.tag,
        load_transaction(c2, area, data) == retagged(load_transaction(c1, area, data), c2.tag),
{
    reveal(transaction_tag);
    let len = (AREA_LEN + data.len()) as u32;
    lemma_cbw_tag(c1.tag, c2.tag, len, Direction::OUT, command_bytes(Command::LoadImageArea));
}

/// A refresh framed on another channel state differs in its tag alone.
proof fn lemma_display_retag(c1: ConnectionView, c2: ConnectionView, d: DisplayArea)
    requires
        c1.max_halt_clears == c2.max_halt_clears,
    ensures
        transaction_tag(display_transaction(c1, d)) == c1.tag,
        display_transaction(c2, d) == retagged(display_transaction(c1, d), c2.tag),
{
    reveal(transaction_tag);
    lemma_cbw_tag(
        c1.tag,
        c2.tag,
        DISPLAY_AREA_LEN as u32,
        Direction::OUT,
        command_bytes(Command::DisplayArea),
    );
}

/// The load of a band framed on another channel state differs in its tag alone.
proof fn lemma_band_load_retag(
    c1: ConnectionView,
    c2: ConnectionView,
    address: u32,
    pixels: Seq<u8>,
    width: u32,
    height: u32,
    x: u32,
    y: u32,
    cap: nat,
    k: nat,
)
    requires
        c1.max_halt_clears == c2.max_halt_clears,
    ensures
        transaction_tag(band_load(c1, address, pixels, width, height, x, y, cap, k)) == tag_plus(
            c1.tag,
            k,
        ),
        band_load(c2, address, pixels, width, height, x, y, cap, k) == retagged(
            band_load(c1, address, pixels, width, height, x, y, cap, k),
            tag_plus(c2.tag, k),
        ),
{
    reveal(band_load);
    let rows = band_rows(k, height as nat, cap);
    let area = Area { address, x, y: (y + k * cap) as u32, w: width, h: rows as u32 };
    let data = pixels.subrange(k * cap * width, (k * cap + rows) * width);
    lemma_load_retag(c1.after_commands(k), c2.after_commands(k), area, data);
}

/// Entry `i` of a region plan: the load of band `i`, or the final refresh.
proof fn lemma_plan_index(
    conn: ConnectionView,
    address: u32,
    pixels: Seq<u8>,
    width: u32,
    height: u32,
    x: u32,
    y: u32,
    mode: Mode,
    max_transfer: u32,
    i: int,
)
    requires
        0 <= i <= band_count(height as nat, row_capacity(max_transfer, width)),
    ensures
        ({
            let cap = row_capacity(max_transfer, width);
            let n = band_count(height as nat, cap);
            region_plan(conn, address, pixels, width, height, x, y, mode, max_transfer)[i] == if i
                < n {
                band_load(conn, address, pixels, width, height, x, y, cap, i as nat)
            } else {
                display_transaction(
                    conn.after_commands(n),
                    DisplayArea {
                        address,
                        display_mode: mode,
                        x,
                        y,
                        w: width,
                        h: height,
                        wait_ready: 1,
                    },
                )
            }
        }),
{
    reveal(region_plan);
}

/// A region plan has one load per band and one refresh.
proof fn lemma_plan_len(
    conn: ConnectionView,
    address: u32,
    pixels: Seq<u8>,
    width: u32,
    height: u32,
    x: u32,
    y: u32,
    mode: Mode,
    max_transfer: u32,
)
    ensures
        region_plan(conn, address, pixels, width, height, x, y, mode, max_transfer).len()
            == band_count(height as nat, row_capacity(max_transfer, width)) + 1,
{
    reveal(region_plan);
}

/// Entry `i` of a region plan framed `shift` commands later differs in its
/// tag alone, and the tags are the channel's tag plus the entry's place.
proof fn lemma_plan_retag(
    conn: ConnectionView,
    shift: nat,
    address: u32,
    pixels: Seq<u8>,
    width: u32,
    height: u32,
    x: u32,
    y: u32,
    mode: Mode,
    max_transfer: u32,
    i: int,
)
    requires
        0 <= i <= band_count(height as nat, row_capacity(max_transfer, width)),
        conn.tag + shift + i <= u32::MAX,
    ensures
        ({
            let p1 = region_plan(conn, address, pixels, width, height, x, y, mode, max_transfer);
            let p2 = region_plan(
                conn.after_commands(shift),
                address,
                pixels,
                width,
                height,
                x,
                y,
                mode,
                max_transfer,
            );
            &&& transaction_tag(p1[i]) == conn.tag + i
            &&& transaction_tag(p2[i]) == conn.tag + shift + i
            &&& p2[i] == retagged(p1[i], transaction_tag(p2[i]))
        }),
{
    let cap = row_capacity(max_transfer, width);
    let n = band_count(height as nat, cap);
    let c2 = conn.after_commands(shift);
    lemma_plan_index(conn, address, pixels, width, height, x, y, mode, max_transfer, i);
    lemma_plan_index(c2, address, pixels, width, height, x, y, mode, max_transfer, i);
    lemma_tag_plus_add(conn.tag, shift, i as nat);
    vstd::arithmetic::div_mod::lemma_small_mod((conn.tag + i) as nat, 0x1_0000_0000);
    vstd::arithmetic::div_mod::lemma_small_mod((conn.tag + shift + i) as nat, 0x1_0000_0000);
    assert(tag_plus(conn.tag, i as nat) == conn.tag + i);
    assert(tag_plus(c2.tag, i as nat) == conn.tag + shift + i);
    if i < n {
        lemma_band_load_retag(conn, c2, address, pixels, width, height, x, y, cap, i as nat);
        lemma_band_load_retag(c2, conn, address, pixels, width, height, x, y, cap, i as nat);
    } else {
        let d = DisplayArea {
            address,
            display_mode: mode,
            x,
            y,
            w: width,
            h: height,
            wait_ready: 1,
        };
        lemma_display_retag(conn.after_commands(n), c2.after_commands(n), d);
        lemma_display_retag(c2.after_commands(n), conn.after_commands(n), d);
    }
}

/// Updating one region twice with the same inputs, on the same channel, frames
/// the same transactions twice except for their tags, and the tags increase
/// strictly over both updates, as long as the tag counter does not wrap.
pub proof fn lemma_update_region_repeats(
    conn: ConnectionView,
    address: u32,
    pixels: Seq<u8>,
    width: u32,
    height: u32,
    x: u32,
    y: u32,
    mode: Mode,
    max_transfer: u32,
)
    requires
        row_capacity(max_transfer, width) > 0,
        conn.tag + 2 * (band_count(height as nat, row_capacity(max_transfer, width)) + 1)
            <= u32::MAX + 1,
    ensures
        ({
            let first = region_plan(conn, address, pixels, width, height, x, y, mode, max_transfer);
            let second = region_plan(
                conn.after_commands(first.len()),
                address,
                pixels,
                width,
                height,
                x,
                y,
                mode,
                max_transfer,
            );
            &&& second.len() == first.len()
            &&& forall|i: int|
                0 <= i < first.len() ==> #[trigger] second[i] == retagged(
                    first[i],
                    transaction_tag(second[i]),
                )
            &&& forall|i: int, j: int|
                0 <= i < j < 2 * first.len() ==> transaction_tag(#[trigger] (first + second)[i])
                    < transaction_tag(#[trigger] (first + second)[j])
        }),
{
    let first = region_plan(conn, address, pixels, width, height, x, y, mode, max_transfer);
    let second = region_plan(
        conn.after_commands(first.len()),
        address,
        pixels,
        width,
        height,
        x,
        y,
        mode,
        max_transfer,
    );
    let both = first + second;
    lemma_plan_len(conn, address, pixels, width, height, x, y, mode, max_transfer);
    lemma_plan_len(
        conn.after_commands(first.len()),
        address,
        pixels,
        width,
        height,
        x,
        y,
        mode,
        max_transfer,
    );
    assert forall|i: int| 0 <= i < first.len() implies {
        &&& transaction_tag(first[i]) == conn.tag + i
        &&& transaction_tag(second[i]) == conn.tag + first.len() + i
        &&& #[trigger] second[i] == retagged(first[i], transaction_tag(second[i]))
    } by {
        lemma_plan_retag(
            conn,
            first.len(),
            address,
            pixels,
            width,
            height,
            x,
            y,
            mode,
            max_transfer,
            i,
        );
    }
    assert forall|i: int| 0 <= i < 2 * first.len() implies transaction_tag(#[trigger] both[i])
        == conn.tag + i by {
        let k = if i >= first.len() {
            i - first.len()
        } else {
            i
        };
        lemma_plan_retag(
            conn,
            first.len(),
            address,
            pixels,
            width,
            height,
            x,
            y,
            mode,
            max_transfer,
            k,
        );
        if i >= first.len() {
            assert(both[i] == second[k]);
        } else {
            assert(both[i] == first[k]);
        }
    }
    assert forall|i: int, j: int| 0 <= i < j < 2 * first.len() implies transaction_tag(
        #[trigger] both[i],
    ) < transaction_tag(#[trigger] both[j]) by {}
}

/// The controller as plain values.
pub ghost struct It8951View {
    pub connection: ConnectionView,
    pub system_info: Option<SystemInfo>,
    /// Largest payload of one transfer, header included.
    pub max_transfer: u32,
}

/// An IT8951 controller on a bulk transport, with the system information
/// that it reported once connected.
pub struct It8951 {
    connection: ScsiOverUsbConnection,
    system_info: Option<SystemInfo>,
    max_transfer: u32,
}

impl View for It8951 {
    type V = It8951View;

    closed spec fn view(&self) -> It8951View {
        It8951View {
            connection: self.connection@,
            system_info: self.system_info,
            max_transfer: self.max_transfer,
        }
    }
}

impl It8951 {
    /// A controller on `connection` whose system information is not known yet.
    pub fn new(connection: ScsiOverUsbConnection, max_transfer: u32) -> (r: It8951)
        ensures
            r@ == (It8951View { connection: connection@, system_info: None, max_transfer }),
    {
        It8951 { connection, system_info: None, max_transfer }
    }

    /// The channel that the controller's commands are framed on.
    pub fn connection(&self) -> (r: &ScsiOverUsbConnection)
        ensures
            r@ == self@.connection,
    {
        &self.connection
    }

    /// Begins an inquiry.
    pub fn inquiry(&mut self) -> (r: Transaction)
        ensures
            r@ == TransactionView::fresh(
                cbw_bytes(
                    old(self)@.connection.tag,
                    INQUIRY_LEN as u32,
                    Direction::IN,
                    command_bytes(Command::Inquiry),
                ),
                Direction::IN,
                seq![],
                INQUIRY_LEN,
                old(self)@.connection.max_halt_clears,
            ),
            final(self)@ == (It8951View {
                connection: old(self)@.connection.after_commands(1),
                ..old(self)@
            }),
    {
        let command = Command::Inquiry.bytes();
        self.connection.read_command(&command, INQUIRY_LEN as u32)
    }

    /// Begins the command that reads the panel's system information.
    pub fn get_sys(&mut self) -> (r: Transaction)
        ensures
            r@ == TransactionView::fresh(
                cbw_bytes(
                    old(self)@.connection.tag,
                    SYSTEM_INFO_LEN as u32,
                    Direction::IN,
                    command_bytes(Command::GetSystemInfo),
                ),
                Direction::IN,
                seq![],
                SYSTEM_INFO_LEN,
                old(self)@.connection.max_halt_clears,
            ),
            final(self)@ == (It8951View {
                connection: old(self)@.connection.after_commands(1),
                ..old(self)@
            }),
    {
        let command = Command::GetSystemInfo.bytes();
        self.connection.read_command(&command, SYSTEM_INFO_LEN as u32)
    }

    /// Decodes and keeps the reply to the system information command. The
    /// first information kept stays: a later call leaves it as it is.
    pub fn store_system_info(&mut self, reply: &[u8]) -> (r: Result<(), DecodeError>)
        ensures
            old(self)@.system_info is Some ==> r is Ok && final(self)@ == old(self)@,
            old(self)@.system_info is None ==> {
                &&& r is Ok <==> system_info_decodes(reply@)
                &&& reply@.len() != SYSTEM_INFO_LEN <==> r == Err::<(), DecodeError>(DecodeError::SizeMismatch)
                &&& r is Ok ==> final(self)@.system_info is Some && system_info_of(
                    reply@,
                    final(self)@.system_info.unwrap(),
                )
                &&& r is Err ==> final(self)@ == old(self)@
                &&& final(self)@.connection == old(self)@.connection
                &&& final(self)@.max_transfer == old(self)@.max_transfer
            },
    {
        if self.system_info.is_some() {
            return Ok(());
        }
        match SystemInfo::decode(reply) {
            Ok(info) => {
                self.system_info = Some(info);
                Ok(())
            },
            Err(e) => Err(e),
        }
    }

    /// System information of the panel, once stored.
    pub fn get_system_info(&self) -> (r: Option<&SystemInfo>)
        ensures
            r is Some <==> self@.system_info is Some,
            r matches Some(info) ==> self@.system_info == Some(*info),
    {
        match &self.system_info {
            Some(info) => Some(info),
            None => None,
        }
    }

    /// Begins loading `data` into `area`.
    pub fn ld_image_area(&mut self, area: Area, data: &[u8]) -> (r: Transaction)
        requires
            AREA_LEN + data@.len() <= u32::MAX,
        ensures
            r@ == load_transaction(old(self)@.connection, area, data@),
            final(self)@ == (It8951View {
                connection: old(self)@.connection.after_commands(1),
                ..old(self)@
            }),
    {
        let command = Command::LoadImageArea.bytes();
        let header = area.to_bytes();
        self.connection.write_command(&command, header.as_slice(), data)
    }

    /// Begins refreshing `display_area`.
    pub fn dpy_area(&mut self, display_area: DisplayArea) -> (r: Transaction)
        ensures
            r@ == display_transaction(old(self)@.connection, display_area),
            final(self)@ == (It8951View {
                connection: old(self)@.connection.after_commands(1),
                ..old(self)@
            }),
    {
        let command = Command::DisplayArea.bytes();
        let header = display_area.to_bytes();
        self.connection.write_command(&command, header.as_slice(), &[])
    }

    /// Begins updating the region of `width` by `height` pixels at (`x`,
    /// `y`) from `pixels`, one byte per pixel, row by row. The rows go in
    /// bands of as many rows as fit in one transfer, one load per band, and
    /// then one refresh of the whole region in `mode`. The caller runs the
    /// transactions in order and stops at the first that fails.
    pub fn update_region(
        &mut self,
        pixels: &[u8],
        width: u32,
        height: u32,
        x: u32,
        y: u32,
        mode: Mode,
    ) -> (r: Result<Vec<Transaction>, ConfigError>)
        requires
            pixels@.len() == width * height,
            y + height <= u32::MAX + 1,
        ensures
            row_capacity(old(self)@.max_transfer, width) == 0 <==> r matches Err(
                ConfigError::InvalidGeometry,
            ),
            (row_capacity(old(self)@.max_transfer, width) > 0 && old(self)@.system_info is None)
                <==> r matches Err(ConfigError::NoSystemInfo),
            r is Err ==> final(self)@ == old(self)@,
            r matches Ok(ts) ==> {
                let plan = region_plan(
                    old(self)@.connection,
                    old(self)@.system_info.unwrap().image_buffer_base,
                    pixels@,
                    width,
                    height,
                    x,
                    y,
                    mode,
                    old(self)@.max_transfer,
                );
                &&& ts@.map_values(|t: Transaction| t@) == plan
                &&& final(self)@ == (It8951View {
                    connection: old(self)@.connection.after_commands(plan.len()),
                    ..old(self)@
                })
            },
    {
        let max_transfer = self.max_transfer;
        assert(row_capacity(max_transfer, width) == if width == 0 || max_transfer < AREA_LEN {
            0
        } else {
            ((max_transfer - AREA_LEN) / (width as int)) as nat
        }) by {
            reveal(row_capacity);
        }
        if width == 0 || max_transfer < AREA_LEN as u32 || (max_transfer - AREA_LEN as u32) / width
            == 0 {
            return Err(ConfigError::InvalidGeometry);
        }
        let address = match &self.system_info {
            Some(info) => info.image_buffer_base,
            None => {
                return Err(ConfigError::NoSystemInfo);
            },
        };
        let cap: usize = ((max_transfer - AREA_LEN as u32) / width) as usize;
        let w: usize = width as usize;
        let h: usize = height as usize;
        let total: usize = pixels.len();
        let ghost start = self@;
        let ghost conn = self@.connection;
        let ghost n = band_count(h as nat, cap as nat);
        let ghost plan = region_plan(conn, address, pixels@, width, height, x, y, mode, max_transfer);
        proof {
            lemma_row_capacity_fits(max_transfer, width);
            lemma_band_index(h as nat, cap as nat, 0);
        }
        let mut out: Vec<Transaction> = Vec::new();
        let mut row: usize = 0;
        let mut offset: usize = 0;
        let ghost mut k: nat = 0;
        while row < h
            invariant
                w == width,
                h == height,
                cap == row_capacity(max_transfer, width),
                cap > 0,
                cap * w <= max_transfer - AREA_LEN,
                pixels@.len() == w * h,
                pixels@.len() == total,
                y + h <= u32::MAX + 1,
                start.max_transfer == max_transfer,
                start.system_info == Some(old(self)@.system_info.unwrap()),
                start.system_info.unwrap().image_buffer_base == address,
                start == old(self)@,
                conn == start.connection,
                n == band_count(h as nat, cap as nat),
                k <= n,
                row == if k * cap < h {
                    k * cap
                } else {
                    h as int
                },
                offset == row * w,
                out@.len() == k,
                forall|i: int|
                    0 <= i < k ==> (#[trigger] out@[i])@ == band_load(
                        conn,
                        address,
                        pixels@,
                        width,
                        height,
                        x,
                        y,
                        cap as nat,
                        i as nat,
                    ),
                self@ == (It8951View { connection: conn.after_commands(k), ..start }),
            decreases h - row,
        {
            proof {
                lemma_band_step(h as nat, cap as nat, k, row as nat, w as nat);
            }
            let rows: usize = if h - row < cap {
                h - row
            } else {
                cap
            };
            let end: usize = offset + rows * w;
            let area = Area { address, x, y: y + row as u32, w: width, h: rows as u32 };
            let tx = self.ld_image_area(area, slice_subrange(pixels, offset, end));
            proof {
                lemma_tag_plus_add(conn.tag, k, 1);
                assert(tx@ == band_load(conn, address, pixels@, width, height, x, y, cap as nat, k))
                    by {
                    reveal(band_load);
                }
            }
            out.push(tx);
            row = row + rows;
            offset = end;
            proof {
                k = k + 1;
            }
        }
        proof {
            lemma_band_index(h as nat, cap as nat, k);
        }
        let tx = self.dpy_area(
            DisplayArea { address, display_mode: mode, x, y, w: width, h: height, wait_ready: 1 },
        );
        proof {
            lemma_tag_plus_add(conn.tag, k, 1);
        }
        out.push(tx);
        assert(out@.map_values(|t: Transaction| t@) =~= plan) by {
            reveal(region_plan);
        }
        Ok(out)
    }
}

} // verus!
