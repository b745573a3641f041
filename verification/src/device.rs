//! Device lifecycle and capability-gated operations.
//!
//! The lifecycle is a typestate: `BaseDevice` is an open, idle session;
//! `ScanningDevice` is a session actively producing frames. Scanning-only
//! operations exist only on `ScanningDevice`, and the transitions consume
//! their input value, so issuing a stage-inappropriate operation is a
//! compile-time error, not a runtime check.
//!
//! Every operation is one synchronous request/response round trip through
//! the external transport. The transport's answer — a status code and the
//! raw payload it wrote back — enters each function here as plain values;
//! the embedding I/O layer performs the exchange itself and hands the
//! answer in. All decision logic (all-or-nothing acquisition, validation,
//! decoding, status collapsing) lives here and is verified.

use vstd::prelude::*;

use crate::contact;
use crate::frame;
use crate::result::SenselError;
use crate::result::SENSEL_OK;

verus! {

/// Sensor geometry and contact capacity, captured once at open time.
/// `width` and `height` carry the device's raw 32-bit scalar encoding,
/// treated as opaque here.
#[derive(Clone, Copy, Debug, PartialEq, Eq, Structural)]
pub struct SenselSensorInfo {
    pub max_contacts: u8,
    pub num_rows: u16,
    pub num_cols: u16,
    pub width: u32,
    pub height: u32,
}

impl SenselSensorInfo {
    /// Number of cells of the pressure and label grids: rows × cols.
    pub open spec fn spec_num_sensors(self) -> int {
        self.num_rows * self.num_cols
    }

    /// Number of cells of the pressure and label grids: rows × cols.
    pub fn get_num_sensors(&self) -> (n: usize)
        ensures
            n == self.spec_num_sensors(),
    {
        proof {
            assert(self.num_rows * self.num_cols <= 0xFFFF * 0xFFFF) by (nonlinear_arith)
                requires
                    self.num_rows <= 0xFFFF,
                    self.num_cols <= 0xFFFF,
            ;
        }
        self.num_rows as usize * self.num_cols as usize
    }
}

/// Firmware identity, captured once at open time.
#[derive(Clone, Copy, Debug, PartialEq, Eq, Structural)]
pub struct SenselFirmwareInfo {
    pub fw_protocol_version: u8,
    pub fw_version_major: u8,
    pub fw_version_minor: u8,
    pub fw_version_build: u16,
    pub fw_version_release: u8,
    pub device_id: u16,
    pub device_revision: u8,
}

/// One enumerated device: its index for opening, and its serial number and
/// connection port as text.
#[derive(Clone, Debug)]
pub struct SenselDeviceID {
    pub idx: u8,
    pub serial_num: String,
    pub com_port: String,
}

/// A bounded enumeration result: at most `MAX_DEVICES` identifiers, of which
/// the first `num_devices` are valid.
#[derive(Clone, Debug)]
pub struct SenselDeviceList {
    pub devices: Vec<SenselDeviceID>,
    pub num_devices: u8,
}

impl SenselDeviceList {
    /// The claimed count is covered by the backing storage, and the storage
    /// respects the enumeration capacity.
    pub open spec fn wf(self) -> bool {
        &&& self.num_devices as int <= self.devices.len()
        &&& self.devices.len() <= crate::MAX_DEVICES
    }
}

/// Wrapper around a raw enumeration result, exposing the valid prefix.
#[derive(Clone, Debug)]
pub struct DeviceList(pub SenselDeviceList);

impl DeviceList {
    /// The identifiers the enumeration actually reported.
    pub fn as_slice(&self) -> (r: &[SenselDeviceID])
        requires
            self.0.wf(),
        ensures
            r@ == self.0.devices@.subrange(0, self.0.num_devices as int),
    {
        vstd::slice::slice_subrange(self.0.devices.as_slice(), 0, self.0.num_devices as usize)
    }
}

/// Decodes a device-enumeration exchange: the transport's status, and the
/// bounded list it filled.
pub fn get_device_list(status: i32, list: SenselDeviceList) -> (r: Result<DeviceList, SenselError>)
    requires
        list.wf(),
    ensures
        r is Ok <==> status == SENSEL_OK,
        r matches Ok(l) ==> l.0 == list,
{
    if status == SENSEL_OK {
        Ok(DeviceList(list))
    } else {
        Err(SenselError)
    }
}

impl SenselDeviceID {
    /// The device's serial number as text.
    pub fn get_serial_num(&self) -> (r: &str)
        ensures
            r@ == self.serial_num@,
    {
        self.serial_num.as_str()
    }

    /// The device's connection port as text.
    pub fn get_com_port(&self) -> (r: &str)
        ensures
            r@ == self.com_port@,
    {
        self.com_port.as_str()
    }

    /// Opens a session from the transport's answers to the open-time
    /// sequence. All-or-nothing: a session is produced exactly when the open
    /// call, every one of the six capability queries, and the LED element
    /// width are good; on any failure after the handle was acquired, the
    /// failure value carries the handle back so the caller releases it.
    pub fn open(self, ex: OpenExchange) -> (r: Result<BaseDevice, OpenFailure>)
        ensures
            r is Ok <==> spec_open_succeeds(ex),
            r matches Ok(d) ==> {
                &&& d.wf()
                &&& d.handle == ex.handle
                &&& d.info.fw_info == ex.fw_info
                &&& d.info.sensor_info == ex.sensor_info
                &&& d.info.supported_frame_content == frame::spec_frame_mask_from_bits(
                    ex.supported_frame_content,
                )
                &&& d.info.num_leds == ex.num_leds as int
                &&& d.info.max_led_brightness == ex.max_led_brightness
                &&& d.led_array_buf.is_short() == (ex.led_reg_size == 2)
                &&& forall|i: int|
                    0 <= i < ex.num_leds as int ==> #[trigger] d.led_array_buf.staged()[i] == 0
                &&& d.frame_data.n_contacts == 0
                &&& d.frame_data.content_bit_mask == 0
            },
            r matches Err(e) ==> {
                &&& e.error == SenselError
                &&& (e.release is Some <==> ex.open_status == SENSEL_OK)
                &&& (ex.open_status == SENSEL_OK ==> e.release == Some(ex.handle))
            },
    {
        let OpenExchange {
            open_status,
            handle,
            fw_status,
            fw_info,
            sensor_status,
            sensor_info,
            content_status,
            supported_frame_content,
            leds_status,
            num_leds,
            brightness_status,
            max_led_brightness,
            led_size_status,
            led_reg_size,
        } = ex;
        if open_status != SENSEL_OK {
            return Err(OpenFailure { error: SenselError, release: None });
        }
        if fw_status != SENSEL_OK || sensor_status != SENSEL_OK || content_status != SENSEL_OK
            || leds_status != SENSEL_OK || brightness_status != SENSEL_OK || led_size_status
            != SENSEL_OK || !(led_reg_size == 1 || led_reg_size == 2) {
            return Err(OpenFailure { error: SenselError, release: Some(handle) });
        }
        let num_sensors = sensor_info.get_num_sensors();

        let led_array_buf = if led_reg_size == 1 {
            let mut buf: Vec<u8> = Vec::new();
            let mut i: usize = 0;
            while i < num_leds as usize
                invariant
                    i <= num_leds as usize,
                    buf.len() == i,
                    forall|k: int| 0 <= k < i ==> #[trigger] buf@[k] == 0,
                decreases num_leds as usize - i,
            {
                buf.push(0u8);
                i = i + 1;
            }
            LEDArray::Char(buf)
        } else {
            let mut buf: Vec<u16> = Vec::new();
            let mut i: usize = 0;
            while i < num_leds as usize
                invariant
                    i <= num_leds as usize,
                    buf.len() == i,
                    forall|k: int| 0 <= k < i ==> #[trigger] buf@[k] == 0,
                decreases num_leds as usize - i,
            {
                buf.push(0u16);
                i = i + 1;
            }
            LEDArray::Short(buf)
        };

        let mut contacts: Vec<contact::SenselContact> = Vec::new();
        let mut i: usize = 0;
        while i < sensor_info.max_contacts as usize
            invariant
                i <= sensor_info.max_contacts as usize,
                contacts.len() == i,
            decreases sensor_info.max_contacts as usize - i,
        {
            contacts.push(contact::SenselContact::zeroed());
            i = i + 1;
        }
        let mut force_array: Vec<u32> = Vec::new();
        let mut i: usize = 0;
        while i < num_sensors
            invariant
                i <= num_sensors,
                force_array.len() == i,
            decreases num_sensors - i,
        {
            force_array.push(0u32);
            i = i + 1;
        }
        let mut labels_array: Vec<u8> = Vec::new();
        let mut i: usize = 0;
        while i < num_sensors
            invariant
                i <= num_sensors,
                labels_array.len() == i,
            decreases num_sensors - i,
        {
            labels_array.push(0u8);
            i = i + 1;
        }
        let frame_data = frame::SenselFrameData {
            content_bit_mask: 0,
            lost_frame_count: 0,
            n_contacts: 0,
            contacts,
            force_array,
            labels_array,
            accel_data: frame::SenselAccelData { x: 0, y: 0, z: 0 },
        };
        let info = DeviceInfo {
            sensor_info,
            fw_info,
            supported_frame_content: frame::Mask::from_bits_truncate(supported_frame_content),
            num_leds: num_leds as usize,
            max_led_brightness,
        };
        let dev = BaseDevice { handle, frame_data, led_array_buf, info };
        proof {
            assert forall|j: int| 0 <= j < num_leds as int implies #[trigger] dev.led_array_buf.staged()[j]
                == 0 by {
            }
        }
        Ok(dev)
    }
}

/// Opaque identity of one physical device session, handed out by the
/// transport's open call and given back for release. Never copied: exactly
/// one lifecycle value owns it at a time.
#[derive(Debug)]
pub struct Handle {
    pub id: u64,
}

/// The transport's answers to the open-time sequence: the open call itself,
/// then the six capability queries (firmware identity, sensor geometry,
/// supported frame content, LED count, maximum LED brightness, LED register
/// element width), each a status code plus the payload written back.
#[derive(Debug)]
pub struct OpenExchange {
    pub open_status: i32,
    pub handle: Handle,
    pub fw_status: i32,
    pub fw_info: SenselFirmwareInfo,
    pub sensor_status: i32,
    pub sensor_info: SenselSensorInfo,
    pub content_status: i32,
    pub supported_frame_content: u8,
    pub leds_status: i32,
    pub num_leds: u8,
    pub brightness_status: i32,
    pub max_led_brightness: u16,
    pub led_size_status: i32,
    pub led_reg_size: u8,
}

/// A failed open: the error, and the acquired handle if the open call itself
/// had succeeded — the caller must release exactly that handle.
#[derive(Debug)]
pub struct OpenFailure {
    pub error: SenselError,
    pub release: Option<Handle>,
}

/// When an open attempt produces a session: the open call and all six
/// capability queries succeeded, and the LED register element width is one
/// the LED buffer can be sized for (1 or 2 bytes). An unknown width is a
/// hard open-time failure — guessing could corrupt LED hardware state.
pub open spec fn spec_open_succeeds(ex: OpenExchange) -> bool {
    &&& ex.open_status == SENSEL_OK
    &&& ex.fw_status == SENSEL_OK
    &&& ex.sensor_status == SENSEL_OK
    &&& ex.content_status == SENSEL_OK
    &&& ex.leds_status == SENSEL_OK
    &&& ex.brightness_status == SENSEL_OK
    &&& ex.led_size_status == SENSEL_OK
    &&& (ex.led_reg_size == 1 || ex.led_reg_size == 2)
}

/// An open attempt whose geometry query failed never yields a session, and
/// if the handle had been acquired the failure value releases it (that part
/// is stated by `open`'s postcondition on every failure).
pub proof fn lemma_open_geometry_failure(ex: OpenExchange)
    requires
        ex.sensor_status != SENSEL_OK,
    ensures
        !spec_open_succeeds(ex),
{
}

/// Immutable capability snapshot captured at open time.
#[derive(Clone, Copy, Debug, PartialEq, Eq, Structural)]
pub struct DeviceInfo {
    pub sensor_info: SenselSensorInfo,
    pub fw_info: SenselFirmwareInfo,
    pub supported_frame_content: frame::Mask,
    pub num_leds: usize,
    pub max_led_brightness: u16,
}

/// The LED staging buffer: element width fixed at open time (1 or 2 bytes
/// per LED) and never changed for the life of the session.
#[derive(Clone, Debug)]
pub enum LEDArray {
    Char(Vec<u8>),
    Short(Vec<u16>),
}

impl LEDArray {
    /// Number of staged elements.
    pub open spec fn len(self) -> int {
        match self {
            LEDArray::Char(v) => v.len() as int,
            LEDArray::Short(v) => v.len() as int,
        }
    }

    /// Whether the buffer uses 2-byte elements.
    pub open spec fn is_short(self) -> bool {
        match self {
            LEDArray::Char(_) => false,
            LEDArray::Short(_) => true,
        }
    }

    /// The staged brightness values, widened to one common type.
    pub open spec fn staged(self) -> Seq<u16> {
        match self {
            LEDArray::Char(v) => v@.map(|i: int, x: u8| x as u16),
            LEDArray::Short(v) => v@,
        }
    }
}

/// What one requested brightness value looks like once staged: kept exactly
/// in a 2-byte buffer, truncated to the low byte in a 1-byte buffer.
pub open spec fn spec_staged_value(is_short: bool, v: u16) -> u16 {
    if is_short {
        v
    } else {
        v % 256
    }
}

/// An open, idle session: the handle, the capability snapshot, the
/// pre-allocated frame-record buffer and the LED staging buffer.
#[derive(Debug)]
pub struct BaseDevice {
    pub handle: Handle,
    pub frame_data: frame::SenselFrameData,
    pub led_array_buf: LEDArray,
    pub info: DeviceInfo,
}

impl BaseDevice {
    /// The session's buffers are sized by the capabilities captured at open
    /// time: the LED buffer by the LED count, the frame buffers by the
    /// contact capacity and the sensor geometry.
    pub open spec fn wf(self) -> bool {
        &&& self.led_array_buf.len() == self.info.num_leds
        &&& self.frame_data.contacts.len() == self.info.sensor_info.max_contacts as int
        &&& self.frame_data.force_array.len() == self.info.sensor_info.spec_num_sensors()
        &&& self.frame_data.labels_array.len() == self.info.sensor_info.spec_num_sensors()
        &&& self.frame_data.n_contacts as int <= self.frame_data.contacts.len()
    }

    /// The common capability-bearing view of an idle session: itself.
    pub fn _get_device(&self) -> (d: &BaseDevice)
        ensures
            d == self,
    {
        self
    }

    /// The capability snapshot captured at open time.
    pub fn get_info(&self) -> (r: DeviceInfo)
        ensures
            r == self.info,
    {
        self.info
    }

    /// Issues a start command: on success the idle value is consumed and a
    /// scanning value over the same session is produced; on failure the
    /// session is torn down and the handle is returned for release.
    pub fn start_scanning(self, status: i32) -> (r: Result<ScanningDevice, (Handle, SenselError)>)
        ensures
            r is Ok <==> status == SENSEL_OK,
            r matches Ok(s) ==> s.0 == self,
            r matches Err(e) ==> e.0 == self.handle && e.1 == SenselError,
    {
        if status == SENSEL_OK {
            Ok(ScanningDevice(self))
        } else {
            let BaseDevice { handle, .. } = self;
            Err((handle, SenselError))
        }
    }

    /// Collapses the status of a soft-reset command.
    pub fn soft_reset(&self, status: i32) -> (r: Result<(), SenselError>)
        ensures
            r is Ok <==> status == SENSEL_OK,
    {
        crate::result::sensel_result(status)
    }

    /// Ends the session, handing the handle back for release. Release never
    /// fails observably.
    pub fn close(self) -> (h: Handle)
        ensures
            h == self.handle,
    {
        let BaseDevice { handle, .. } = self;
        handle
    }

    /// Decodes a power-button query: the raw byte is a boolean.
    pub fn get_power_button_pressed(&self, status: i32, pressed: u8) -> (r: Result<
        bool,
        SenselError,
    >)
        ensures
            r is Ok <==> status == SENSEL_OK,
            r matches Ok(b) ==> b == (pressed != 0),
    {
        if status == SENSEL_OK {
            Ok(pressed != 0)
        } else {
            Err(SenselError)
        }
    }

    /// Stages a bulk brightness write. Rejected — reporting failure and
    /// leaving the staged buffer exactly as it was — unless the request has
    /// exactly one value per LED and every value is within the device's
    /// maximum brightness; accepted requests replace the staged contents
    /// (truncated to the low byte when the session's LED registers are
    /// 1-byte). The staged buffer is what the transport then writes to the
    /// LED brightness register in one bulk exchange.
    pub fn set_led_array(&mut self, led_array: &[u16]) -> (r: Result<(), SenselError>)
        requires
            old(self).wf(),
        ensures
            final(self).wf(),
            r is Ok <==> (led_array@.len() == old(self).info.num_leds && (forall|i: int|
                0 <= i < led_array@.len() ==> #[trigger] led_array@[i] <= old(
                    self,
                ).info.max_led_brightness)),
            r is Err ==> *final(self) == *old(self),
            final(self).handle == old(self).handle,
            final(self).info == old(self).info,
            final(self).frame_data == old(self).frame_data,
            final(self).led_array_buf.is_short() == old(self).led_array_buf.is_short(),
            final(self).led_array_buf.len() == old(self).led_array_buf.len(),
            r is Ok ==> forall|i: int|
                0 <= i < led_array@.len() ==> #[trigger] final(self).led_array_buf.staged()[i]
                    == spec_staged_value(old(self).led_array_buf.is_short(), led_array@[i]),
    {
        if led_array.len() != self.info.num_leds {
            return Err(SenselError);
        }
        let n = led_array.len();
        let mut i: usize = 0;
        while i < n
            invariant
                *self == *old(self),
                old(self).wf(),
                n == led_array@.len(),
                i <= n,
                forall|k: int| 0 <= k < i ==> #[trigger] led_array@[k] <= self.info.max_led_brightness,
            decreases n - i,
        {
            if led_array[i] > self.info.max_led_brightness {
                return Err(SenselError);
            }
            i = i + 1;
        }
        match &mut self.led_array_buf {
            LEDArray::Char(buf) => {
                buf.clear();
                let mut j: usize = 0;
                while j < n
                    invariant
                        n == led_array@.len(),
                        j <= n,
                        buf.len() == j,
                        forall|k: int|
                            0 <= k < j ==> #[trigger] buf@[k] == (led_array@[k] % 256) as u8,
                    decreases n - j,
                {
                    buf.push((led_array[j] % 256) as u8);
                    j = j + 1;
                }
            },
            LEDArray::Short(buf) => {
                buf.clear();
                let mut j: usize = 0;
                while j < n
                    invariant
                        n == led_array@.len(),
                        j <= n,
                        buf.len() == j,
                        forall|k: int| 0 <= k < j ==> #[trigger] buf@[k] == led_array@[k],
                    decreases n - j,
                {
                    buf.push(led_array[j]);
                    j = j + 1;
                }
            },
        }
        Ok(())
    }

    /// Collapses the status of a single-LED brightness write.
    pub fn set_led_brightness(&self, led_id: u8, brightness: u16, status: i32) -> (r: Result<
        (),
        SenselError,
    >)
        ensures
            r is Ok <==> status == SENSEL_OK,
    {
        let _ = led_id;
        let _ = brightness;
        crate::result::sensel_result(status)
    }

    /// Decodes a single-LED brightness query.
    pub fn get_led_brightness(&self, led_id: u8, status: i32, brightness: u16) -> (r: Result<
        u16,
        SenselError,
    >)
        ensures
            r is Ok <==> status == SENSEL_OK,
            r matches Ok(b) ==> b == brightness,
    {
        let _ = led_id;
        if status == SENSEL_OK {
            Ok(brightness)
        } else {
            Err(SenselError)
        }
    }

    /// Collapses the status of a scan-mode write.
    pub fn set_scan_mode(&self, mode: SenselScanMode, status: i32) -> (r: Result<(), SenselError>)
        ensures
            r is Ok <==> status == SENSEL_OK,
    {
        let _ = mode;
        crate::result::sensel_result(status)
    }

    /// Decodes a scan-mode query.
    pub fn get_scan_mode(&self, status: i32, mode: SenselScanMode) -> (r: Result<
        SenselScanMode,
        SenselError,
    >)
        ensures
            r is Ok <==> status == SENSEL_OK,
            r matches Ok(m) ==> m == mode,
    {
        if status == SENSEL_OK {
            Ok(mode)
        } else {
            Err(SenselError)
        }
    }

    /// Collapses the status of a scan-detail write.
    pub fn set_scan_detail(&self, detail: SenselScanDetail, status: i32) -> (r: Result<
        (),
        SenselError,
    >)
        ensures
            r is Ok <==> status == SENSEL_OK,
    {
        let _ = detail;
        crate::result::sensel_result(status)
    }

    /// Decodes a scan-detail query.
    pub fn get_scan_detail(&self, status: i32, detail: SenselScanDetail) -> (r: Result<
        SenselScanDetail,
        SenselError,
    >)
        ensures
            r is Ok <==> status == SENSEL_OK,
            r matches Ok(d) ==> d == detail,
    {
        if status == SENSEL_OK {
            Ok(detail)
        } else {
            Err(SenselError)
        }
    }

    /// Collapses the status of a buffer-control write.
    pub fn set_buffer_control(&self, num: u8, status: i32) -> (r: Result<(), SenselError>)
        ensures
            r is Ok <==> status == SENSEL_OK,
    {
        let _ = num;
        crate::result::sensel_result(status)
    }

    /// Decodes a buffer-control query.
    pub fn get_buffer_control(&self, status: i32, num: u8) -> (r: Result<u8, SenselError>)
        ensures
            r is Ok <==> status == SENSEL_OK,
            r matches Ok(v) ==> v == num,
    {
        if status == SENSEL_OK {
            Ok(num)
        } else {
            Err(SenselError)
        }
    }

    /// Collapses the status of a max-frame-rate write.
    pub fn set_max_frame_rate(&self, val: u16, status: i32) -> (r: Result<(), SenselError>)
        ensures
            r is Ok <==> status == SENSEL_OK,
    {
        let _ = val;
        crate::result::sensel_result(status)
    }

    /// Decodes a max-frame-rate query.
    pub fn get_max_frame_rate(&self, status: i32, val: u16) -> (r: Result<u16, SenselError>)
        ensures
            r is Ok <==> status == SENSEL_OK,
            r matches Ok(v) ==> v == val,
    {
        if status == SENSEL_OK {
            Ok(val)
        } else {
            Err(SenselError)
        }
    }

    /// Collapses the status of a frame-content-mask write; the transport is
    /// handed `mask.bits()`.
    pub fn set_frame_content(&self, mask: frame::Mask, status: i32) -> (r: Result<
        (),
        SenselError,
    >)
        ensures
            r is Ok <==> status == SENSEL_OK,
    {
        let _ = mask;
        crate::result::sensel_result(status)
    }

    /// Decodes a frame-content-mask query: unknown bits of the raw pattern
    /// are silently discarded.
    pub fn get_frame_content(&self, status: i32, raw: u8) -> (r: Result<frame::Mask, SenselError>)
        ensures
            r is Ok <==> status == SENSEL_OK,
            r matches Ok(m) ==> m == frame::spec_frame_mask_from_bits(raw),
    {
        if status == SENSEL_OK {
            Ok(frame::Mask::from_bits_truncate(raw))
        } else {
            Err(SenselError)
        }
    }

    /// Collapses the status of a contact-content-mask write; the transport
    /// is handed `mask.bits()`.
    pub fn set_contacts_mask(&self, mask: contact::Mask, status: i32) -> (r: Result<
        (),
        SenselError,
    >)
        ensures
            r is Ok <==> status == SENSEL_OK,
    {
        let _ = mask;
        crate::result::sensel_result(status)
    }

    /// Decodes a contact-content-mask query: unknown bits of the raw pattern
    /// are silently discarded.
    pub fn get_contacts_mask(&self, status: i32, raw: u8) -> (r: Result<
        contact::Mask,
        SenselError,
    >)
        ensures
            r is Ok <==> status == SENSEL_OK,
            r matches Ok(m) ==> m == contact::spec_contact_mask_from_bits(raw),
    {
        if status == SENSEL_OK {
            Ok(contact::Mask::from_bits_truncate(raw))
        } else {
            Err(SenselError)
        }
    }

    /// Collapses the status of a contact minimum-force write.
    pub fn set_contacts_min_force(&self, val: u16, status: i32) -> (r: Result<(), SenselError>)
        ensures
            r is Ok <==> status == SENSEL_OK,
    {
        let _ = val;
        crate::result::sensel_result(status)
    }

    /// Decodes a contact minimum-force query.
    pub fn get_contacts_min_force(&self, status: i32, val: u16) -> (r: Result<u16, SenselError>)
        ensures
            r is Ok <==> status == SENSEL_OK,
            r matches Ok(v) ==> v == val,
    {
        if status == SENSEL_OK {
            Ok(val)
        } else {
            Err(SenselError)
        }
    }

    /// Collapses the status of a blob-merge toggle write.
    pub fn set_contacts_enable_blob_merge(&self, val: bool, status: i32) -> (r: Result<
        (),
        SenselError,
    >)
        ensures
            r is Ok <==> status == SENSEL_OK,
    {
        let _ = val;
        crate::result::sensel_result(status)
    }

    /// Decodes a blob-merge toggle query: the raw byte is a boolean.
    pub fn get_contacts_enable_blob_merge(&self, status: i32, val: u8) -> (r: Result<
        bool,
        SenselError,
    >)
        ensures
            r is Ok <==> status == SENSEL_OK,
            r matches Ok(b) ==> b == (val != 0),
    {
        if status == SENSEL_OK {
            Ok(val != 0)
        } else {
            Err(SenselError)
        }
    }

    /// Collapses the status of a dynamic-baseline toggle write.
    pub fn set_dynamic_baseline_enabled(&self, val: bool, status: i32) -> (r: Result<
        (),
        SenselError,
    >)
        ensures
            r is Ok <==> status == SENSEL_OK,
    {
        let _ = val;
        crate::result::sensel_result(status)
    }

    /// Decodes a dynamic-baseline toggle query: the raw byte is a boolean.
    pub fn get_dynamic_baseline_enabled(&self, status: i32, val: u8) -> (r: Result<
        bool,
        SenselError,
    >)
        ensures
            r is Ok <==> status == SENSEL_OK,
            r matches Ok(b) ==> b == (val != 0),
    {
        if status == SENSEL_OK {
            Ok(val != 0)
        } else {
            Err(SenselError)
        }
    }
}

/// Numeric mirror of the device's scan-mode register.
#[derive(Clone, Copy, Debug, PartialEq, Eq, Structural)]
pub enum SenselScanMode {
    Disable,
    Sync,
    Async,
}

/// Numeric mirror of the device's scan-detail register.
#[derive(Clone, Copy, Debug, PartialEq, Eq, Structural)]
pub enum SenselScanDetail {
    High,
    Medium,
    Low,
    Unknown,
}

/// A session actively producing frames. Carries the same handle, capability
/// snapshot and buffers as the idle session it was started from.
#[derive(Debug)]
pub struct ScanningDevice(pub BaseDevice);

impl ScanningDevice {
    /// The common capability-bearing view of a scanning session.
    pub fn _get_device(&self) -> (d: &BaseDevice)
        ensures
            *d == self.0,
    {
        &self.0
    }

    /// Mutable access to the common capability-bearing view, for operations
    /// that stage state (the LED buffer) while scanning.
    pub fn _get_device_mut(&mut self) -> (d: &mut BaseDevice)
        ensures
            *d == old(self).0,
            final(self).0 == *final(d),
    {
        &mut self.0
    }

    /// The capability snapshot captured at open time.
    pub fn get_info(&self) -> (r: DeviceInfo)
        ensures
            r == self.0.info,
    {
        self.0.info
    }

    /// Issues a stop command: on success the scanning value is consumed and
    /// the same session returns to idle, with every capability value intact;
    /// on failure the session is torn down and the handle is returned for
    /// release.
    pub fn stop_scanning(self, status: i32) -> (r: Result<BaseDevice, (Handle, SenselError)>)
        ensures
            r is Ok <==> status == SENSEL_OK,
            r matches Ok(d) ==> d == self.0,
            r matches Err(e) ==> e.0 == self.0.handle && e.1 == SenselError,
    {
        if status == SENSEL_OK {
            let ScanningDevice(base) = self;
            Ok(base)
        } else {
            let ScanningDevice(base) = self;
            let BaseDevice { handle, .. } = base;
            Err((handle, SenselError))
        }
    }

    /// Collapses the status of a sample-trigger command.
    pub fn read_sensor(&self, status: i32) -> (r: Result<(), SenselError>)
        ensures
            r is Ok <==> status == SENSEL_OK,
    {
        crate::result::sensel_result(status)
    }

    /// Decodes a buffered-frame-count query. This is an independent query,
    /// not a prerequisite of reading a frame.
    pub fn get_num_available_frames(&self, status: i32, num_frames: u32) -> (r: Result<
        usize,
        SenselError,
    >)
        ensures
            r is Ok <==> status == SENSEL_OK,
            r matches Ok(n) ==> n == num_frames as int,
    {
        if status == SENSEL_OK {
            Ok(num_frames as usize)
        } else {
            Err(SenselError)
        }
    }

    /// Pulls one frame into the session's pre-allocated record buffer and
    /// decodes it. The record the transport filled must match the buffer
    /// sizes fixed at open time. On failure nothing is stored. The decoded
    /// frame borrows the stored record: its views are unusable, at compile
    /// time, once the next frame is read into the same buffer.
    pub fn get_frame<'a>(&'a mut self, status: i32, data: frame::SenselFrameData) -> (r: Result<
        frame::Frame<'a>,
        SenselError,
    >)
        requires
            old(self).0.wf(),
            data.contacts.len() == old(self).0.info.sensor_info.max_contacts as int,
            data.force_array.len() == old(self).0.info.sensor_info.spec_num_sensors(),
            data.labels_array.len() == old(self).0.info.sensor_info.spec_num_sensors(),
            data.n_contacts as int <= data.contacts.len(),
        ensures
            final(self).0.wf(),
            final(self).0.handle == old(self).0.handle,
            final(self).0.info == old(self).0.info,
            final(self).0.led_array_buf == old(self).0.led_array_buf,
            r is Ok <==> status == SENSEL_OK,
            r is Err ==> *final(self) == *old(self),
            r is Ok ==> final(self).0.frame_data == data,
            r matches Ok(f) ==> {
                &&& f.lost_frame_count == data.lost_frame_count
                &&& (f.contacts is Some <==> data.content_bit_mask
                    & frame::FRAME_CONTENT_CONTACTS_MASK != 0)
                &&& (f.contacts is Some ==> f.contacts.unwrap()@ == data.contacts@.subrange(
                    0,
                    data.n_contacts as int,
                ))
                &&& (f.force_array is Some <==> data.content_bit_mask
                    & frame::FRAME_CONTENT_PRESSURE_MASK != 0)
                &&& (f.force_array is Some ==> f.force_array.unwrap()@ == data.force_array@.subrange(
                    0,
                    old(self).0.info.sensor_info.spec_num_sensors(),
                ))
                &&& (f.labels_array is Some <==> data.content_bit_mask
                    & frame::FRAME_CONTENT_LABELS_MASK != 0)
                &&& (f.labels_array is Some ==> f.labels_array.unwrap()@
                    == data.labels_array@.subrange(
                    0,
                    old(self).0.info.sensor_info.spec_num_sensors(),
                ))
                &&& f.accel_data == if data.content_bit_mask & frame::FRAME_CONTENT_ACCEL_MASK
                    != 0 {
                    Some(data.accel_data)
                } else {
                    None
                }
            },
    {
        if status != SENSEL_OK {
            return Err(SenselError);
        }
        self.0.frame_data = data;
        Ok(frame::from_frame_data(&self.0.frame_data, self.0.info.sensor_info))
    }

    /// Ends the session from the scanning state, handing the handle back for
    /// release. Release never fails observably.
    pub fn close(self) -> (h: Handle)
        ensures
            h == self.0.handle,
    {
        let ScanningDevice(base) = self;
        base.close()
    }
}

/// Starting, stopping and starting again is observably equivalent to never
/// having stopped: given the transitions succeed, the session after the
/// restart is exactly the session after the first start — in particular
/// every capability value readable from it is the same.
pub proof fn lemma_restart_preserves_session(
    first_start: ScanningDevice,
    stopped: BaseDevice,
    second_start: ScanningDevice,
)
    requires
        stopped == first_start.0,
        second_start.0 == stopped,
    ensures
        second_start == first_start,
        second_start.0.info == first_start.0.info,
{
}

} // verus!
