use vstd::prelude::*;
use vstd::std_specs::convert::FromSpecImpl;
use crate::hip::device::DeviceProperties;
use crate::hip::error::Result;
use crate::text::{decimal, decimal_string, signed_decimal, signed_decimal_string};
use crate::hip::error::Error;

verus! {

/// Three-dimensional extent used for grid and block sizes.
#[derive(Debug, Clone, Copy)]
pub struct Dim3 {
    pub x: u32,
    pub y: u32,
    pub z: u32,
}

/// Ceiling of `n / d` for a positive divisor.
pub open spec fn ceil_div(n: int, d: int) -> int {
    (n + d - 1) / d
}

impl Dim3 {
    /// Create a new 1D dimension
    pub fn new_1d(x: u32) -> (r: Self)
        ensures
            r.x == x && r.y == 1 && r.z == 1,
    {
        Self { x, y: 1, z: 1 }
    }

    /// Create a new 2D dimension
    pub fn new_2d(x: u32, y: u32) -> (r: Self)
        ensures
            r.x == x && r.y == y && r.z == 1,
    {
        Self { x, y, z: 1 }
    }

    /// Create a new 3D dimension
    pub fn new_3d(x: u32, y: u32, z: u32) -> (r: Self)
        ensures
            r.x == x && r.y == y && r.z == z,
    {
        Self { x, y, z }
    }
}

impl From<u32> for Dim3 {
    fn from(x: u32) -> (r: Self) {
        Self::new_1d(x)
    }
}

impl FromSpecImpl<u32> for Dim3 {
    open spec fn obeys_from_spec() -> bool {
        true
    }

    open spec fn from_spec(x: u32) -> Self {
        Dim3 { x, y: 1, z: 1 }
    }
}

impl From<(u32, u32)> for Dim3 {
    fn from(xy: (u32, u32)) -> (r: Self) {
        Self::new_2d(xy.0, xy.1)
    }
}

impl FromSpecImpl<(u32, u32)> for Dim3 {
    open spec fn obeys_from_spec() -> bool {
        true
    }

    open spec fn from_spec(xy: (u32, u32)) -> Self {
        Dim3 { x: xy.0, y: xy.1, z: 1 }
    }
}

impl From<(u32, u32, u32)> for Dim3 {
    fn from(xyz: (u32, u32, u32)) -> (r: Self) {
        Self::new_3d(xyz.0, xyz.1, xyz.2)
    }
}

impl FromSpecImpl<(u32, u32, u32)> for Dim3 {
    open spec fn obeys_from_spec() -> bool {
        true
    }

    open spec fn from_spec(xyz: (u32, u32, u32)) -> Self {
        Dim3 { x: xyz.0, y: xyz.1, z: xyz.2 }
    }
}

/// Number of blocks of `block` threads needed to cover `total` elements.
fn blocks_needed(total: u32, block: u32) -> (r: u32)
    requires
        block > 0,
        total + block <= u32::MAX,
    ensures
        r == ceil_div(total as int, block as int),
{
    (total + block - 1) / block
}

/// Calculate optimal grid dimensions for a 1D problem
pub fn calculate_grid_1d(total_elements: u32, block_size: u32) -> (r: Dim3)
    requires
        block_size > 0,
        total_elements + block_size <= u32::MAX,
    ensures
        r.x == ceil_div(total_elements as int, block_size as int),
        r.y == 1 && r.z == 1,
{
    let grid_size = blocks_needed(total_elements, block_size);
    Dim3::new_1d(grid_size)
}

/// Calculate optimal grid dimensions for a 2D problem
pub fn calculate_grid_2d(width: u32, height: u32, block_x: u32, block_y: u32) -> (r: Dim3)
    requires
        block_x > 0,
        block_y > 0,
        width + block_x <= u32::MAX,
        height + block_y <= u32::MAX,
    ensures
        r.x == ceil_div(width as int, block_x as int),
        r.y == ceil_div(height as int, block_y as int),
        r.z == 1,
{
    let grid_x = blocks_needed(width, block_x);
    let grid_y = blocks_needed(height, block_y);
    Dim3::new_2d(grid_x, grid_y)
}

/// Calculate optimal grid dimensions for a 3D problem
pub fn calculate_grid_3d(
    width: u32,
    height: u32,
    depth: u32,
    block_x: u32,
    block_y: u32,
    block_z: u32,
) -> (r: Dim3)
    requires
        block_x > 0,
        block_y > 0,
        block_z > 0,
        width + block_x <= u32::MAX,
        height + block_y <= u32::MAX,
        depth + block_z <= u32::MAX,
    ensures
        r.x == ceil_div(width as int, block_x as int),
        r.y == ceil_div(height as int, block_y as int),
        r.z == ceil_div(depth as int, block_z as int),
{
    let grid_x = blocks_needed(width, block_x);
    let grid_y = blocks_needed(height, block_y);
    let grid_z = blocks_needed(depth, block_z);
    Dim3::new_3d(grid_x, grid_y, grid_z)
}

/// The number of blocks computed for a launch covers every element, and one
/// block fewer would not.
pub proof fn lemma_grid_covers(total: int, block: int)
    requires
        total >= 0,
        block > 0,
    ensures
        ceil_div(total, block) * block >= total,
        (ceil_div(total, block) - 1) * block < total,
{
    let q = ceil_div(total, block);
    assert(q * block <= total + block - 1 && total + block - 1 < q * block + block) by (nonlinear_arith)
        requires q == (total + block - 1) / block, block > 0;
    assert((q - 1) * block == q * block - block) by (nonlinear_arith);
}

/// Helper function to get the next multiple of a value
pub fn next_multiple(value: usize, multiple: usize) -> (r: usize)
    requires
        multiple > 0,
        value + multiple <= usize::MAX,
    ensures
        r == ceil_div(value as int, multiple as int) * multiple,
{
    let q = (value + multiple - 1) / multiple;
    assert(q * multiple <= value + multiple - 1) by (nonlinear_arith)
        requires q as int == (value + multiple - 1) as int / multiple as int, multiple > 0;
    q * multiple
}

/// The next multiple is the smallest multiple of `multiple` that is at
/// least `value`.
pub proof fn lemma_next_multiple(value: int, multiple: int)
    requires
        value >= 0,
        multiple > 0,
    ensures
        (ceil_div(value, multiple) * multiple) % multiple == 0,
        value <= ceil_div(value, multiple) * multiple < value + multiple,
{
    let q = ceil_div(value, multiple);
    assert(q * multiple <= value + multiple - 1 && value + multiple - 1 < q * multiple + multiple)
        by (nonlinear_arith)
        requires q == (value + multiple - 1) / multiple, multiple > 0;
    assert((q * multiple) % multiple == 0) by (nonlinear_arith)
        requires multiple > 0;
}

/// Wrapper for HIP version information
#[derive(Debug, Clone, Copy)]
pub struct Version {
    pub major: i32,
    pub minor: i32,
    pub patch: i32,
}

/// Truncating division as performed on machine integers.
pub open spec fn trunc_div(a: int, b: int) -> int {
    if a >= 0 { a / b } else { -((-a) / b) }
}

/// Truncating remainder as performed on machine integers.
pub open spec fn trunc_rem(a: int, b: int) -> int {
    a - trunc_div(a, b) * b
}

impl Version {
    /// Split a version number encoded as `10000*major + 100*minor + patch`.
    pub fn from_encoded(version: i32) -> (r: Self)
        ensures
            r.major == trunc_div(version as int, 10000),
            r.minor == trunc_div(trunc_rem(version as int, 10000), 100),
            r.patch == trunc_rem(version as int, 100),
    {
        let major = version / 10000;
        let minor = (version % 10000) / 100;
        let patch = version % 100;
        Self { major, minor, patch }
    }

    /// The HIP driver version, from the encoded version the driver reports.
    pub fn driver(reported: Result<i32>) -> (r: Result<Self>)
        ensures
            r is Ok <==> reported is Ok,
            r matches Ok(v) ==> v == Self::decoded(reported->Ok_0),
            r matches Err(e) ==> reported == Err::<i32, crate::hip::Error>(e),
    {
        match reported {
            Ok(version) => Ok(Self::from_encoded(version)),
            Err(e) => Err(e),
        }
    }

    /// The HIP runtime version, from the encoded version the runtime reports.
    pub fn runtime(reported: Result<i32>) -> (r: Result<Self>)
        ensures
            r is Ok <==> reported is Ok,
            r matches Ok(v) ==> v == Self::decoded(reported->Ok_0),
            r matches Err(e) ==> reported == Err::<i32, crate::hip::Error>(e),
    {
        match reported {
            Ok(version) => Ok(Self::from_encoded(version)),
            Err(e) => Err(e),
        }
    }

    /// The version that the encoded number `version` stands for.
    pub open spec fn decoded(version: i32) -> Self {
        Version {
            major: trunc_div(version as int, 10000) as i32,
            minor: trunc_div(trunc_rem(version as int, 10000), 100) as i32,
            patch: trunc_rem(version as int, 100) as i32,
        }
    }

    /// Convert to a string representation: `major.minor.patch`.
    pub fn to_string(&self) -> (r: String)
        ensures
            r@ == signed_decimal(self.major as int) + "."@ + signed_decimal(self.minor as int) + "."@
                + signed_decimal(self.patch as int),
    {
        let s = signed_decimal_string(self.major as i64);
        let s = s.concat(".");
        let minor = signed_decimal_string(self.minor as i64);
        let s = s.concat(minor.as_str());
        let s = s.concat(".");
        let patch = signed_decimal_string(self.patch as i64);
        s.concat(patch.as_str())
    }
}

/// Decoding a version number loses nothing: the parts recombine into it.
pub proof fn lemma_version_recombines(version: i32)
    ensures
        Version::decoded(version).major * 10000 + Version::decoded(version).minor * 100
            + Version::decoded(version).patch == version,
{
    let v = version as int;
    if v >= 0 {
        let q = v / 10000;
        let r = v % 10000;
        assert(v == q * 10000 + r && 0 <= r < 10000) by (nonlinear_arith)
            requires q == v / 10000, r == v % 10000;
        let m = r / 100;
        let p = r % 100;
        assert(r == m * 100 + p && 0 <= p < 100) by (nonlinear_arith)
            requires m == r / 100, p == r % 100;
        assert(v % 100 == p) by (nonlinear_arith)
            requires v == q * 10000 + m * 100 + p, 0 <= p < 100;
        assert(0 <= q <= v && 0 <= m <= r) by (nonlinear_arith)
            requires v >= 0, q == v / 10000, m == r / 100, 0 <= r < 10000;
    } else {
        let w = -v;
        let q = w / 10000;
        let r = w % 10000;
        assert(w == q * 10000 + r && 0 <= r < 10000) by (nonlinear_arith)
            requires q == w / 10000, r == w % 10000;
        let m = r / 100;
        let p = r % 100;
        assert(r == m * 100 + p && 0 <= p < 100) by (nonlinear_arith)
            requires m == r / 100, p == r % 100;
        assert(w % 100 == p) by (nonlinear_arith)
            requires w == q * 10000 + m * 100 + p, 0 <= p < 100;
        assert(0 <= q <= w && 0 <= m <= r) by (nonlinear_arith)
            requires w > 0, q == w / 10000, m == r / 100, 0 <= r < 10000;
        assert(trunc_rem(v, 10000) == -r);
        assert(trunc_div(-r, 100) == -m);
        assert(trunc_rem(v, 100) == -p);
    }
}

/// Whether HIP can be used, from the device count the runtime reports:
/// it can when the count was obtained and is positive.
pub fn is_hip_available(device_count: Result<i32>) -> (r: bool)
    ensures
        r == (device_count matches Ok(count) && count > 0),
{
    match device_count {
        Ok(count) => count > 0,
        Err(_) => false,
    }
}

/// `label`, `value` and `unit` one after the other.
pub open spec fn line(label: Seq<char>, value: Seq<char>, unit: Seq<char>) -> Seq<char> {
    label + value + unit
}

/// Decimal text of an `i32`.
pub open spec fn dec_i32(x: i32) -> Seq<char> {
    signed_decimal(x as int)
}

/// The lines describing the device with index `i`.
#[verifier::opaque]
pub open spec fn device_report(i: int, p: DeviceProperties) -> Seq<char> {
    line("\nDevice "@, decimal(i as nat), ": "@) + p.name@ + "\n"@
    + line("  Compute capability: "@, dec_i32(p.major), "."@) + dec_i32(p.minor) + "\n"@
    + line("  Total memory: "@, decimal((p.total_global_mem as nat / 1048576) as nat), " MB\n"@)
    + line("  Clock rate: "@, signed_decimal(trunc_div(p.clock_rate as int, 1000)), " MHz\n"@)
    + line("  Multi-processor count: "@, dec_i32(p.multi_processor_count), "\n"@)
    + line("  Max threads per block: "@, dec_i32(p.max_threads_per_block), "\n"@)
    + line("  Max threads per multiprocessor: "@, dec_i32(p.max_threads_per_multiprocessor), "\n"@)
    + line("  Warp size: "@, dec_i32(p.warp_size), "\n"@)
    + line("  Max dimensions of a grid: ["@, triple(p.max_grid_size), "]\n"@)
    + line("  Max dimensions of a block: ["@, triple(p.max_threads_dim), "]\n"@)
    + line("  Shared memory per block: "@, decimal((p.shared_mem_per_block as nat / 1024) as nat), " KB\n"@)
    + line("  Registers per block: "@, dec_i32(p.regs_per_block), "\n"@)
    + line("  L2 cache size: "@, signed_decimal(trunc_div(p.l2_cache_size as int, 1024)), " KB\n"@)
    + line("  Memory clock rate: "@, signed_decimal(trunc_div(p.memory_clock_rate as int, 1000)), " MHz\n"@)
    + line("  Memory bus width: "@, dec_i32(p.memory_bus_width), " bits\n"@)
    + line("  Integrated: "@, dec_i32(p.integrated), "\n"@)
    + line("  Can map host memory: "@, dec_i32(p.can_map_host_memory), "\n"@)
}

/// The block of device `i` opens with the line naming it: "Device", the
/// index `i`, a colon and the name from its own properties.
pub proof fn lemma_device_report_heading(i: int, p: DeviceProperties)
    ensures
        device_report(i, p).len() >= ("\nDevice "@ + decimal(i as nat) + ": "@ + p.name@ + "\n"@).len(),
        device_report(i, p).take(
            ("\nDevice "@ + decimal(i as nat) + ": "@ + p.name@ + "\n"@).len() as int,
        ) == "\nDevice "@ + decimal(i as nat) + ": "@ + p.name@ + "\n"@,
{
    reveal(device_report);
    let head = "\nDevice "@ + decimal(i as nat) + ": "@ + p.name@ + "\n"@;
    let r = device_report(i, p);
    assert(r.take(head.len() as int) =~= head);
}

/// Three values separated by commas.
pub open spec fn triple(v: [i32; 3]) -> Seq<char> {
    dec_i32(v[0]) + ", "@ + dec_i32(v[1]) + ", "@ + dec_i32(v[2])
}

/// Reports of the first `n` devices.
pub open spec fn device_reports(devices: Seq<DeviceProperties>, n: int) -> Seq<char>
    decreases n,
{
    if n <= 0 {
        Seq::empty()
    } else {
        device_reports(devices, n - 1) + device_report(n - 1, devices[n - 1])
    }
}

/// Number of devices a report on `count` devices lists: none for a negative
/// count.
pub open spec fn listed(count: i32) -> int {
    if count < 0 {
        0
    } else {
        count as int
    }
}

/// The properties in the first `n` query results.
pub open spec fn reported_devices(results: Seq<Result<DeviceProperties>>, n: int) -> Seq<
    DeviceProperties,
> {
    Seq::new(n as nat, |j: int| results[j]->Ok_0)
}

/// The report on `count` devices with the given properties.
pub open spec fn devices_report(count: i32, devices: Seq<DeviceProperties>) -> Seq<char> {
    "Found "@ + signed_decimal(count as int) + " HIP device(s)\n"@ + device_reports(
        devices,
        devices.len() as int,
    )
}

/// The blocks of the first `n` devices, in order, are the block of device
/// 0 built from the first properties, then that of device 1 from the
/// second, and so on.
proof fn lemma_device_reports_blocks(devices: Seq<DeviceProperties>, n: int)
    requires
        0 <= n <= devices.len(),
    ensures
        device_reports(devices, n) == Seq::new(n as nat, |i: int| device_report(i, devices[i])).flatten(),
    decreases n,
{
    let blocks = Seq::new(n as nat, |i: int| device_report(i, devices[i]));
    blocks.lemma_flatten_and_flatten_alt_are_equivalent();
    if n > 0 {
        lemma_device_reports_blocks(devices, n - 1);
        let shorter = Seq::new((n - 1) as nat, |i: int| device_report(i, devices[i]));
        assert(blocks.drop_last() =~= shorter);
        shorter.lemma_flatten_and_flatten_alt_are_equivalent();
    } else {
        assert(blocks =~= Seq::<Seq<char>>::empty());
    }
}

/// The report on `count` devices is the line "Found <count> HIP device(s)"
/// followed, for each listed device `i` in order (none for a negative
/// count), by the block of device `i` built from the `i`-th query result.
pub proof fn lemma_devices_report_blocks(count: i32, results: Seq<Result<DeviceProperties>>)
    requires
        listed(count) <= results.len(),
    ensures
        listed(count) == if count < 0 {
            0
        } else {
            count as int
        },
        devices_report(count, reported_devices(results, listed(count))) == "Found "@
            + signed_decimal(count as int) + " HIP device(s)\n"@ + Seq::new(
            listed(count) as nat,
            |i: int| device_report(i, results[i]->Ok_0),
        ).flatten(),
{
    let devices = reported_devices(results, listed(count));
    lemma_device_reports_blocks(devices, listed(count));
    assert(Seq::new(listed(count) as nat, |i: int| device_report(i, devices[i])) =~= Seq::new(
        listed(count) as nat,
        |i: int| device_report(i, results[i]->Ok_0),
    ));
}

/// `label`, `value` and `unit` as one string.
fn make_line(label: &str, value: &str, unit: &str) -> (r: String)
    ensures
        r@ == line(label@, value@, unit@),
{
    let s = String::from_str(label);
    let s = s.concat(value);
    s.concat(unit)
}

/// Decimal text of an `i32`.
fn i32_text(x: i32) -> (r: String)
    ensures
        r@ == dec_i32(x),
{
    signed_decimal_string(x as i64)
}

/// Three values separated by commas.
fn triple_text(v: &[i32; 3]) -> (r: String)
    ensures
        r@ == triple(*v),
{
    let s = i32_text(v[0]);
    let s = s.concat(", ");
    let b = i32_text(v[1]);
    let s = s.concat(b.as_str());
    let s = s.concat(", ");
    let c = i32_text(v[2]);
    s.concat(c.as_str())
}

/// The lines describing one device.
fn device_text(i: usize, p: &DeviceProperties) -> (r: String)
    ensures
        r@ == device_report(i as int, *p),
{
    reveal(device_report);
    let idx = decimal_string(i as u64);
    let s = make_line("\nDevice ", idx.as_str(), ": ");
    let s = s.concat(p.name.as_str());
    let s = s.concat("\n");
    let v = i32_text(p.major);
    let s = s.concat(make_line("  Compute capability: ", v.as_str(), ".").as_str());
    let v = i32_text(p.minor);
    let s = s.concat(v.as_str());
    let s = s.concat("\n");
    let v = decimal_string((p.total_global_mem / (1024 * 1024)) as u64);
    let s = s.concat(make_line("  Total memory: ", v.as_str(), " MB\n").as_str());
    let v = signed_decimal_string((p.clock_rate / 1000) as i64);
    let s = s.concat(make_line("  Clock rate: ", v.as_str(), " MHz\n").as_str());
    let v = i32_text(p.multi_processor_count);
    let s = s.concat(make_line("  Multi-processor count: ", v.as_str(), "\n").as_str());
    let v = i32_text(p.max_threads_per_block);
    let s = s.concat(make_line("  Max threads per block: ", v.as_str(), "\n").as_str());
    let v = i32_text(p.max_threads_per_multiprocessor);
    let s = s.concat(make_line("  Max threads per multiprocessor: ", v.as_str(), "\n").as_str());
    let v = i32_text(p.warp_size);
    let s = s.concat(make_line("  Warp size: ", v.as_str(), "\n").as_str());
    let v = triple_text(&p.max_grid_size);
    let s = s.concat(make_line("  Max dimensions of a grid: [", v.as_str(), "]\n").as_str());
    let v = triple_text(&p.max_threads_dim);
    let s = s.concat(make_line("  Max dimensions of a block: [", v.as_str(), "]\n").as_str());
    let v = decimal_string((p.shared_mem_per_block / 1024) as u64);
    let s = s.concat(make_line("  Shared memory per block: ", v.as_str(), " KB\n").as_str());
    let v = i32_text(p.regs_per_block);
    let s = s.concat(make_line("  Registers per block: ", v.as_str(), "\n").as_str());
    let v = signed_decimal_string((p.l2_cache_size / 1024) as i64);
    let s = s.concat(make_line("  L2 cache size: ", v.as_str(), " KB\n").as_str());
    let v = signed_decimal_string((p.memory_clock_rate / 1000) as i64);
    let s = s.concat(make_line("  Memory clock rate: ", v.as_str(), " MHz\n").as_str());
    let v = i32_text(p.memory_bus_width);
    let s = s.concat(make_line("  Memory bus width: ", v.as_str(), " bits\n").as_str());
    let v = i32_text(p.integrated);
    let s = s.concat(make_line("  Integrated: ", v.as_str(), "\n").as_str());
    let v = i32_text(p.can_map_host_memory);
    let s = s.concat(make_line("  Can map host memory: ", v.as_str(), "\n").as_str());
    s
}

/// Get a description of all devices in the system, from what the runtime
/// reports: the device count, then the result of the properties query of
/// each device in order. The first failed query ends the report with its
/// error.
pub fn print_devices_info(count: Result<i32>, properties: &[Result<DeviceProperties>]) -> (r:
    Result<String>)
    requires
        count matches Ok(c) ==> listed(c) <= properties@.len(),
    ensures
        count matches Err(e) ==> r == Err::<String, Error>(e),
        count matches Ok(c) ==> (r is Ok <==> forall|j: int|
            0 <= j < listed(c) ==> #[trigger] properties@[j] is Ok),
        count matches Ok(c) ==> (r matches Err(e) ==> exists|i: int|
            0 <= i < listed(c) && properties@[i] == Err::<DeviceProperties, Error>(e) && forall|
                j: int,
            |
                0 <= j < i ==> #[trigger] properties@[j] is Ok),
        count matches Ok(c) ==> (r matches Ok(text) ==> text@ == devices_report(
            c,
            reported_devices(properties@, listed(c)),
        )),
{
    let c = match count {
        Err(e) => return Err(e),
        Ok(c) => c,
    };
    let n: usize = if c < 0 {
        0
    } else {
        c as usize
    };
    let ghost devices = reported_devices(properties@, listed(c));
    let count_text = signed_decimal_string(c as i64);
    let mut output = make_line("Found ", count_text.as_str(), " HIP device(s)\n");
    let mut i: usize = 0;
    while i < n
        invariant
            count == Ok::<i32, Error>(c),
            n == listed(c),
            n <= properties@.len(),
            i <= n,
            devices == reported_devices(properties@, listed(c)),
            forall|j: int| 0 <= j < i ==> #[trigger] properties@[j] is Ok,
            output@ == "Found "@ + signed_decimal(c as int) + " HIP device(s)\n"@ + device_reports(
                devices,
                i as int,
            ),
        decreases n - i,
    {
        match &properties[i] {
            Err(e) => {
                return Err(*e);
            },
            Ok(p) => {
                let text = device_text(i, p);
                assert(devices[i as int] == *p);
                output = output.concat(text.as_str());
            },
        }
        i += 1;
    }
    Ok(output)
}

} // verus!
