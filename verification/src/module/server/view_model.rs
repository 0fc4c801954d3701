//! Server rows, address summary, detail screen and form.
use vstd::prelude::*;
use crate::bytes::{format_bytes_signed, signed_bytes_text};
use crate::models::cinder::{Volume, VolumeAttachment};
use crate::models::neutron::FloatingIp;
use crate::models::nova::{Address, AttachedVolume, Flavor, NetworkAddresses, Server, ServerMigration, ServerSecurityGroup};
use crate::text::{byte_prefix, byte_prefix_exec, byte_prefix_len, cat, cat3, dec, dec_int, i64_text, join, join_spec, opt_or, opt_str_or, opt_view, str_eq, strs_view, text_le, text_le_exec, to_upper, u64_text, uppercase_of};
use crate::ui::detail_view::{fields_view, kv, opt_kv, push_kv, push_opt_kv, push_section, section, sections_view, table_view, DetailData, DetailDataView, DetailField, DetailSection, FieldView, SectionView};
use crate::ui::form::{dropdown_spec, field_specs, text_spec, FieldDef};
use crate::ui::resource_list::{column, columns_view, push_column, ColumnAlign, ColumnDef, ColumnView, ColumnWidth, Row, RowStyleHint, RowView};

verus! {

/// Icon and style of an upper-cased server status.
pub open spec fn server_status_spec(upper: Seq<char>) -> (Seq<char>, RowStyleHint) {
    if upper == "ACTIVE"@ {
        ("●"@, RowStyleHint::Active)
    } else if upper == "ERROR"@ || upper == "DELETED"@ {
        ("✗"@, RowStyleHint::Error)
    } else if upper == "BUILD"@ || upper == "RESIZE"@ || upper == "REBOOT"@ || upper
        == "REBUILD"@ || upper == "MIGRATING"@ || upper == "VERIFY_RESIZE"@ || upper
        == "REVERT_RESIZE"@ {
        ("◐"@, RowStyleHint::Warning)
    } else if upper == "SHUTOFF"@ || upper == "SUSPENDED"@ || upper == "PAUSED"@ || upper
        == "SHELVED"@ || upper == "SHELVED_OFFLOADED"@ {
        ("○"@, RowStyleHint::Disabled)
    } else {
        ("?"@, RowStyleHint::Normal)
    }
}

/// Icon and style for an already upper-cased status.
pub fn server_status_for_upper(upper: &str) -> (r: (&'static str, RowStyleHint))
    ensures
        (r.0@, r.1) == server_status_spec(upper@),
{
    if str_eq(upper, "ACTIVE") {
        ("●", RowStyleHint::Active)
    } else if str_eq(upper, "ERROR") || str_eq(upper, "DELETED") {
        ("✗", RowStyleHint::Error)
    } else if str_eq(upper, "BUILD") || str_eq(upper, "RESIZE") || str_eq(upper, "REBOOT")
        || str_eq(upper, "REBUILD") || str_eq(upper, "MIGRATING") || str_eq(upper, "VERIFY_RESIZE")
        || str_eq(upper, "REVERT_RESIZE") {
        ("◐", RowStyleHint::Warning)
    } else if str_eq(upper, "SHUTOFF") || str_eq(upper, "SUSPENDED") || str_eq(upper, "PAUSED")
        || str_eq(upper, "SHELVED") || str_eq(upper, "SHELVED_OFFLOADED") {
        ("○", RowStyleHint::Disabled)
    } else {
        ("?", RowStyleHint::Normal)
    }
}

/// Icon and style of a server status, compared case-insensitively.
pub fn status_display(status: &str) -> (r: (&'static str, RowStyleHint))
    ensures
        (r.0@, r.1) == server_status_spec(uppercase_of(status@)),
{
    let upper = to_upper(status);
    server_status_for_upper(upper.as_str())
}

/// `s` with `x` placed after every entry whose network name is not
/// greater than its own, and before the rest.
pub open spec fn insert_by_name(s: Seq<NetworkAddresses>, x: NetworkAddresses) -> Seq<NetworkAddresses>
    decreases s.len(),
{
    if s.len() == 0 {
        seq![x]
    } else if text_le(s.last().network@, x.network@) {
        s.push(x)
    } else {
        insert_by_name(s.drop_last(), x).push(s.last())
    }
}

/// The networks in the order of their names; entries with equal names
/// keep their relative order.
pub open spec fn by_name(s: Seq<NetworkAddresses>) -> Seq<NetworkAddresses>
    decreases s.len(),
{
    if s.len() == 0 {
        s
    } else {
        insert_by_name(by_name(s.drop_last()), s.last())
    }
}

/// All addresses of the networks, network after network.
pub open spec fn flat_addrs(nets: Seq<NetworkAddresses>) -> Seq<Address>
    decreases nets.len(),
{
    if nets.len() == 0 {
        Seq::empty()
    } else {
        flat_addrs(nets.drop_last()) + nets.last().addrs@
    }
}

/// Whether an address is a floating one.
pub open spec fn is_floating(a: Address) -> bool {
    opt_view(a.ip_type) == Some("floating"@)
}

/// The texts of the addresses that are not floating, in order.
pub open spec fn fixed_texts(addrs: Seq<Address>) -> Seq<Seq<char>>
    decreases addrs.len(),
{
    if addrs.len() == 0 {
        Seq::empty()
    } else if is_floating(addrs.last()) {
        fixed_texts(addrs.drop_last())
    } else {
        fixed_texts(addrs.drop_last()).push(addrs.last().addr@)
    }
}

/// The texts of the floating addresses, in order.
pub open spec fn floating_texts(addrs: Seq<Address>) -> Seq<Seq<char>>
    decreases addrs.len(),
{
    if addrs.len() == 0 {
        Seq::empty()
    } else if is_floating(addrs.last()) {
        floating_texts(addrs.drop_last()).push(addrs.last().addr@)
    } else {
        floating_texts(addrs.drop_last())
    }
}

/// The address summary: the networks taken in name order, their fixed
/// addresses first and then the floating ones, joined by `, `.
pub open spec fn ips_text(nets: Seq<NetworkAddresses>) -> Seq<char> {
    let flat = flat_addrs(by_name(nets));
    join_spec(fixed_texts(flat) + floating_texts(flat), ", "@)
}

/// The networks picked by a list of positions.
pub open spec fn pick(nets: Seq<NetworkAddresses>, ord: Seq<usize>) -> Seq<NetworkAddresses> {
    ord.map_values(|k: usize| nets[k as int])
}

/// The positions of the networks in name order.
fn name_order(nets: &Vec<NetworkAddresses>) -> (ord: Vec<usize>)
    ensures
        forall|k: int| 0 <= k < ord@.len() ==> ord@[k] < nets@.len(),
        pick(nets@, ord@) == by_name(nets@),
{
    let n = nets.len();
    let mut ord: Vec<usize> = Vec::new();
    let mut i: usize = 0;
    while i < n
        invariant
            n == nets@.len(),
            i <= n,
            forall|k: int| 0 <= k < ord@.len() ==> ord@[k] < i,
            pick(nets@, ord@) == by_name(nets@.subrange(0, i as int)),
        decreases n - i,
    {
        let ghost s = pick(nets@, ord@);
        let ghost x = nets@[i as int];
        let len = ord.len();
        let mut j: usize = len;
        proof {
            assert(s.subrange(0, len as int) =~= s);
            assert(s.subrange(len as int, len as int) =~= Seq::<NetworkAddresses>::empty());
            assert(insert_by_name(s, x) =~= insert_by_name(s.subrange(0, len as int), x) + s.subrange(
                len as int,
                len as int,
            ));
        }
        while j > 0 && !text_le_exec(nets[ord[j - 1]].network.as_str(), nets[i].network.as_str())
            invariant
                n == nets@.len(),
                i < n,
                len == ord@.len(),
                s == pick(nets@, ord@),
                x == nets@[i as int],
                j <= len,
                forall|k: int| 0 <= k < ord@.len() ==> ord@[k] < i,
                insert_by_name(s, x) == insert_by_name(s.subrange(0, j as int), x) + s.subrange(
                    j as int,
                    len as int,
                ),
                j < len ==> !text_le(s[j as int].network@, x.network@),
            decreases j,
        {
            proof {
                let a = s.subrange(0, j as int);
                assert(a.drop_last() =~= s.subrange(0, j - 1));
                assert(a.last() == s[j - 1]);
                assert(insert_by_name(a, x) == insert_by_name(s.subrange(0, j - 1), x).push(
                    s[j - 1],
                ));
                assert(insert_by_name(s.subrange(0, j - 1), x).push(s[j - 1]) + s.subrange(
                    j as int,
                    len as int,
                ) =~= insert_by_name(s.subrange(0, j - 1), x) + s.subrange(j - 1, len as int));
            }
            j = j - 1;
        }
        proof {
            let a = s.subrange(0, j as int);
            if j == 0 {
                assert(insert_by_name(a, x) == seq![x]);
            } else {
                assert(a.last() == s[j - 1]);
                assert(insert_by_name(a, x) == a.push(x));
            }
            assert(insert_by_name(s, x) =~= s.insert(j as int, x));
        }
        ord.insert(j, i);
        proof {
            assert(pick(nets@, ord@) =~= s.insert(j as int, x));
            let t = nets@.subrange(0, i + 1);
            assert(t.drop_last() =~= nets@.subrange(0, i as int));
            assert(t.last() == x);
            assert(by_name(t) == insert_by_name(by_name(nets@.subrange(0, i as int)), x));
        }
        i = i + 1;
    }
    proof {
        assert(nets@.subrange(0, n as int) =~= nets@);
    }
    ord
}

/// The fixed and the floating address texts of the networks picked by
/// `ord`, each list in order.
fn split_by_kind(addresses: &Vec<NetworkAddresses>, ord: &Vec<usize>) -> (r: (Vec<String>, Vec<String>))
    requires
        forall|q: int| 0 <= q < ord@.len() ==> ord@[q] < addresses@.len(),
    ensures
        strs_view(r.0@) == fixed_texts(flat_addrs(pick(addresses@, ord@))),
        strs_view(r.1@) == floating_texts(flat_addrs(pick(addresses@, ord@))),
{
    let ghost nets = pick(addresses@, ord@);
    let mut fixed: Vec<String> = Vec::new();
    let mut floating: Vec<String> = Vec::new();
    let mut k: usize = 0;
    while k < ord.len()
        invariant
            nets == pick(addresses@, ord@),
            forall|q: int| 0 <= q < ord@.len() ==> ord@[q] < addresses@.len(),
            k <= ord@.len(),
            strs_view(fixed@) == fixed_texts(flat_addrs(nets.subrange(0, k as int))),
            strs_view(floating@) == floating_texts(flat_addrs(nets.subrange(0, k as int))),
        decreases ord@.len() - k,
    {
        let net = &addresses[ord[k]];
        let ghost prefix = flat_addrs(nets.subrange(0, k as int));
        proof {
            assert(net == nets[k as int]);
            assert(prefix + net.addrs@.subrange(0, 0) =~= prefix);
        }
        let m = net.addrs.len();
        let mut q: usize = 0;
        while q < m
            invariant
                m == net.addrs@.len(),
                q <= m,
                strs_view(fixed@) == fixed_texts(prefix + net.addrs@.subrange(0, q as int)),
                strs_view(floating@) == floating_texts(prefix + net.addrs@.subrange(0, q as int)),
            decreases m - q,
        {
            let a = &net.addrs[q];
            let ghost cur = prefix + net.addrs@.subrange(0, q + 1);
            proof {
                assert(cur.drop_last() =~= prefix + net.addrs@.subrange(0, q as int));
                assert(cur.last() == *a);
            }
            let fl = match &a.ip_type {
                Some(t) => str_eq(t.as_str(), "floating"),
                None => false,
            };
            proof {
                assert(fl == is_floating(*a));
            }
            let ghost f0 = fixed@;
            let ghost g0 = floating@;
            if fl {
                floating.push(a.addr.clone());
                proof {
                    assert(strs_view(floating@) =~= strs_view(g0).push(a.addr@));
                }
            } else {
                fixed.push(a.addr.clone());
                proof {
                    assert(strs_view(fixed@) =~= strs_view(f0).push(a.addr@));
                }
            }
            q = q + 1;
        }
        proof {
            let t = nets.subrange(0, k + 1);
            assert(t.drop_last() =~= nets.subrange(0, k as int));
            assert(net.addrs@.subrange(0, m as int) =~= net.addrs@);
            assert(flat_addrs(t) == prefix + net.addrs@);
        }
        k = k + 1;
    }
    proof {
        assert(nets.subrange(0, ord@.len() as int) =~= nets);
    }
    (fixed, floating)
}

/// The address summary of a server: fixed addresses before floating ones,
/// networks in name order, joined by `, `.
pub fn format_ips(addresses: &Vec<NetworkAddresses>) -> (r: String)
    ensures
        r@ == ips_text(addresses@),
{
    let ord = name_order(addresses);
    let (mut fixed, mut floating) = split_by_kind(addresses, &ord);
    let ghost fv = strs_view(fixed@);
    let ghost gv = strs_view(floating@);
    fixed.append(&mut floating);
    proof {
        assert(strs_view(fixed@) =~= fv + gv);
    }
    join(&fixed, ", ")
}

/// The positions `0..n` in order.
fn positions(n: usize) -> (r: Vec<usize>)
    ensures
        r@.len() == n,
        forall|q: int| 0 <= q < n ==> r@[q] == q,
{
    let mut r: Vec<usize> = Vec::new();
    let mut i: usize = 0;
    while i < n
        invariant
            i <= n,
            r@.len() == i,
            forall|q: int| 0 <= q < i ==> r@[q] == q,
        decreases n - i,
    {
        r.push(i);
        i = i + 1;
    }
    r
}

/// The image column: the image ID, or `-` for a volume-booted server.
pub open spec fn image_text(s: Server) -> Seq<char> {
    match s.image {
        Some(i) => i.id@,
        None => "-"@,
    }
}

/// The row of a server: icon, name, project and host when shown, status,
/// address summary, flavor name (or ID), image, number of attached
/// volumes (or `-`).
pub open spec fn server_row_spec(s: Server, show_tenant: bool, show_host: bool) -> RowView {
    let (icon, style) = server_status_spec(uppercase_of(s.status@));
    let n = s.volumes_attached@.len();
    RowView {
        id: s.id@,
        cells: seq![icon, s.name@] + (if show_tenant {
            seq![opt_or(s.tenant_id, "-"@)]
        } else {
            Seq::empty()
        }) + (if show_host {
            seq![opt_or(s.host, "-"@)]
        } else {
            Seq::empty()
        }) + seq![
            s.status@,
            ips_text(s.addresses@),
            opt_or(s.flavor.original_name, s.flavor.id@),
            image_text(s),
            if n > 0 { dec(n) } else { "-"@ },
        ],
        style_hint: Some(style),
    }
}

/// The table row of a server, with the project column when asked.
pub fn server_to_row(server: &Server, show_tenant: bool) -> (r: Row)
    ensures
        r@ == server_row_spec(*server, show_tenant, false),
{
    server_to_row_full(server, show_tenant, false)
}

/// The table row of a server, with the project and host columns when
/// asked.
pub fn server_to_row_full(server: &Server, show_tenant: bool, show_host: bool) -> (r: Row)
    ensures
        r@ == server_row_spec(*server, show_tenant, show_host),
{
    let (icon, style) = status_display(server.status.as_str());
    let flavor = opt_str_or(&server.flavor.original_name, server.flavor.id.as_str());
    let image = match &server.image {
        Some(i) => i.id.clone(),
        None => String::from_str("-"),
    };
    let mut cells = vec![String::from_str(icon), server.name.clone()];
    if show_tenant {
        cells.push(opt_str_or(&server.tenant_id, "-"));
    }
    if show_host {
        cells.push(opt_str_or(&server.host, "-"));
    }
    let count = server.volumes_attached.len();
    let vols = if count > 0 { u64_text(count as u64) } else { String::from_str("-") };
    cells.push(server.status.clone());
    cells.push(format_ips(&server.addresses));
    cells.push(flavor);
    cells.push(image);
    cells.push(vols);
    let r = Row { id: server.id.clone(), cells, style_hint: Some(style) };
    proof {
        assert(r@.cells =~= server_row_spec(*server, show_tenant, show_host).cells);
    }
    r
}

/// The server form: required name, image, flavor and network dropdowns
/// (options filled in later), optional security group, key pair and
/// availability zone.
pub fn server_create_defs() -> (r: Vec<FieldDef>)
    ensures
        field_specs(r@) == seq![
            text_spec("Name"@, true),
            dropdown_spec("Image"@, Seq::empty(), true),
            dropdown_spec("Flavor"@, Seq::empty(), true),
            dropdown_spec("Network"@, Seq::empty(), true),
            dropdown_spec("Security Group"@, Seq::empty(), false),
            text_spec("Key Pair"@, false),
            text_spec("Availability Zone"@, false),
        ],
{
    let r = vec![
        FieldDef::text("Name", true),
        FieldDef::dropdown("Image", Vec::new(), true),
        FieldDef::dropdown("Flavor", Vec::new(), true),
        FieldDef::dropdown("Network", Vec::new(), true),
        FieldDef::dropdown("Security Group", Vec::new(), false),
        FieldDef::text("Key Pair", false),
        FieldDef::text("Availability Zone", false),
    ];
    proof {
        assert(strs_view(Seq::<String>::empty()) =~= Seq::<Seq<char>>::empty());
        assert(field_specs(r@) =~= seq![
            text_spec("Name"@, true),
            dropdown_spec("Image"@, Seq::empty(), true),
            dropdown_spec("Flavor"@, Seq::empty(), true),
            dropdown_spec("Network"@, Seq::empty(), true),
            dropdown_spec("Security Group"@, Seq::empty(), false),
            text_spec("Key Pair"@, false),
            text_spec("Availability Zone"@, false),
        ]);
    }
    r
}

/// The first floating IP record with the given address.
pub open spec fn find_fip(addr: Seq<char>, fips: Seq<FloatingIp>) -> Option<FloatingIp>
    decreases fips.len(),
{
    if fips.len() == 0 {
        None
    } else if fips[0].floating_ip_address@ == addr {
        Some(fips[0])
    } else {
        find_fip(addr, fips.drop_first())
    }
}

/// Position of the first floating IP record with the given address.
fn find_fip_exec(addr: &str, fips: &[FloatingIp]) -> (r: Option<usize>)
    ensures
        match r {
            Some(j) => j < fips@.len() && find_fip(addr@, fips@) == Some(fips@[j as int]),
            None => find_fip(addr@, fips@) is None,
        },
{
    let n = fips.len();
    let mut j: usize = 0;
    proof {
        assert(fips@.skip(0) =~= fips@);
    }
    while j < n
        invariant
            n == fips@.len(),
            j <= n,
            find_fip(addr@, fips@) == find_fip(addr@, fips@.skip(j as int)),
        decreases n - j,
    {
        let ghost rest = fips@.skip(j as int);
        proof {
            assert(rest[0] == fips@[j as int]);
            assert(rest.drop_first() =~= fips@.skip(j + 1));
        }
        if str_eq(fips[j].floating_ip_address.as_str(), addr) {
            return Some(j);
        }
        j = j + 1;
    }
    None
}

/// The first cached volume with the given ID.
pub open spec fn find_volume(id: Seq<char>, vols: Seq<Volume>) -> Option<Volume>
    decreases vols.len(),
{
    if vols.len() == 0 {
        None
    } else if vols[0].id@ == id {
        Some(vols[0])
    } else {
        find_volume(id, vols.drop_first())
    }
}

/// Position of the first cached volume with the given ID.
pub(crate) fn find_volume_exec(id: &str, vols: &[Volume]) -> (r: Option<usize>)
    ensures
        match r {
            Some(j) => j < vols@.len() && find_volume(id@, vols@) == Some(vols@[j as int]),
            None => find_volume(id@, vols@) is None,
        },
{
    let n = vols.len();
    let mut j: usize = 0;
    proof {
        assert(vols@.skip(0) =~= vols@);
    }
    while j < n
        invariant
            n == vols@.len(),
            j <= n,
            find_volume(id@, vols@) == find_volume(id@, vols@.skip(j as int)),
        decreases n - j,
    {
        let ghost rest = vols@.skip(j as int);
        proof {
            assert(rest[0] == vols@[j as int]);
            assert(rest.drop_first() =~= vols@.skip(j + 1));
        }
        if str_eq(vols[j].id.as_str(), id) {
            return Some(j);
        }
        j = j + 1;
    }
    None
}

/// The first attachment of a volume to the given server.
pub open spec fn find_attachment(server_id: Seq<char>, atts: Seq<VolumeAttachment>) -> Option<VolumeAttachment>
    decreases atts.len(),
{
    if atts.len() == 0 {
        None
    } else if atts[0].server_id@ == server_id {
        Some(atts[0])
    } else {
        find_attachment(server_id, atts.drop_first())
    }
}

/// The device of the first attachment to the given server, or `-`.
fn attachment_device(server_id: &str, atts: &Vec<VolumeAttachment>) -> (r: String)
    ensures
        r@ == match find_attachment(server_id@, atts@) {
            Some(a) => a.device@,
            None => "-"@,
        },
{
    let n = atts.len();
    let mut j: usize = 0;
    proof {
        assert(atts@.skip(0) =~= atts@);
    }
    while j < n
        invariant
            n == atts@.len(),
            j <= n,
            find_attachment(server_id@, atts@) == find_attachment(server_id@, atts@.skip(j as int)),
        decreases n - j,
    {
        let ghost rest = atts@.skip(j as int);
        proof {
            assert(rest[0] == atts@[j as int]);
            assert(rest.drop_first() =~= atts@.skip(j + 1));
        }
        if str_eq(atts[j].server_id.as_str(), server_id) {
            return atts[j].device.clone();
        }
        j = j + 1;
    }
    String::from_str("-")
}

/// The banner shown while a resize or migration waits for confirmation.
pub open spec fn banner_sections(s: Server, is_resize_pending: bool) -> Seq<SectionView> {
    if s.status@ == "VERIFY_RESIZE"@ {
        seq![
            SectionView {
                name: if is_resize_pending { "⚠ Resize Pending"@ } else { "⚠ Migration Pending"@ },
                fields: seq![
                    kv(
                        "Action Required"@,
                        if is_resize_pending {
                            "Confirm(Y) or Revert(N) resize"@
                        } else {
                            "Confirm(Y) or Revert(N) migration"@
                        },
                        Some(RowStyleHint::Warning),
                    ),
                ],
            },
        ]
    } else {
        Seq::empty()
    }
}

/// The host entry: the migration's route while one runs, else the host.
pub open spec fn host_fields(s: Server, mig: Option<ServerMigration>) -> Seq<FieldView> {
    match s.host {
        None => Seq::empty(),
        Some(h) => match mig {
            Some(m) => seq![
                kv("Host"@, m.source_compute@ + " → "@ + m.dest_compute@, Some(RowStyleHint::Warning)),
            ],
            None => seq![kv("Host"@, h@, None)],
        },
    }
}

/// The basic entries of a server.
pub open spec fn basic_fields(s: Server, mig: Option<ServerMigration>) -> Seq<FieldView> {
    seq![
        kv("ID"@, s.id@, None),
        kv("Name"@, s.name@, None),
        kv("Status"@, s.status@, Some(server_status_spec(uppercase_of(s.status@)).1)),
    ] + opt_kv("AZ"@, opt_view(s.availability_zone)) + opt_kv("Keypair"@, opt_view(s.key_name))
        + seq![kv("Created"@, s.created@, None)] + host_fields(s, mig)
}

/// An optional count with a unit, or `-`.
pub open spec fn opt_unit_text(n: Option<u32>, unit: Seq<char>) -> Seq<char> {
    match n {
        Some(v) => dec(v as nat) + unit,
        None => "-"@,
    }
}

/// The hardware entries: from the cached flavor when known, else from the
/// flavor embedded in the server.
pub open spec fn hardware_fields(s: Server, flavor: Option<Flavor>) -> Seq<FieldView> {
    let (name, vcpus, ram, disk) = match flavor {
        Some(f) => (f.name@, dec(f.vcpus as nat), dec(f.ram as nat) + " MB"@, dec(f.disk as nat) + " GB"@),
        None => (
            opt_or(s.flavor.original_name, s.flavor.id@),
            opt_unit_text(s.flavor.vcpus, Seq::empty()),
            opt_unit_text(s.flavor.ram, " MB"@),
            opt_unit_text(s.flavor.disk, " GB"@),
        ),
    };
    seq![kv("Flavor"@, name, None), kv("vCPU"@, vcpus, None), kv("RAM"@, ram, None), kv("Disk"@, disk, None)]
}

/// One address row: network, address, type or `-`, MAC or `-`.
pub open spec fn address_row(net: Seq<char>, a: Address) -> Seq<Seq<char>> {
    seq![net, a.addr@, opt_or(a.ip_type, "-"@), opt_or(a.mac_addr, "-"@)]
}

/// The address rows of all networks, network after network.
pub open spec fn address_rows(nets: Seq<NetworkAddresses>) -> Seq<Seq<Seq<char>>>
    decreases nets.len(),
{
    if nets.len() == 0 {
        Seq::empty()
    } else {
        address_rows(nets.drop_last()) + nets.last().addrs@.map_values(
            |a: Address| address_row(nets.last().network@, a),
        )
    }
}

/// The entries of one floating address: the matching record's route, ID
/// and status, or the bare address when no record matches.
pub open spec fn fip_entry(addr: Seq<char>, fips: Seq<FloatingIp>) -> Seq<FieldView> {
    match find_fip(addr, fips) {
        Some(f) => seq![
            kv("FIP"@, f.floating_ip_address@ + " → "@ + opt_or(f.fixed_ip_address, "-"@), Some(RowStyleHint::Active)),
            kv("  ID"@, f.id@, None),
            kv("  Status"@, f.status@, None),
        ],
        None => seq![kv("FIP"@, addr, Some(RowStyleHint::Active))],
    }
}

/// The floating IP entries of a list of floating addresses.
pub open spec fn fip_entries(addrs: Seq<Seq<char>>, fips: Seq<FloatingIp>) -> Seq<FieldView>
    decreases addrs.len(),
{
    if addrs.len() == 0 {
        Seq::empty()
    } else {
        fip_entries(addrs.drop_last(), fips) + fip_entry(addrs.last(), fips)
    }
}

/// One attached volume row: name (or the first bytes of its ID), size,
/// status and this server's device, from the cached record when there is
/// one, `-` otherwise.
pub open spec fn volume_row(server_id: Seq<char>, vol_id: Seq<char>, vols: Seq<Volume>) -> Seq<Seq<char>> {
    match find_volume(vol_id, vols) {
        Some(v) => seq![
            opt_or(v.name, byte_prefix(vol_id, 8)),
            dec(v.size as nat) + " GB"@,
            v.status@,
            match find_attachment(server_id, v.attachments@) {
                Some(a) => a.device@,
                None => "-"@,
            },
        ],
        None => seq![byte_prefix(vol_id, 8), "-"@, "-"@, "-"@],
    }
}

/// Percentage of `processed` in `total`, with the division rounding toward
/// zero; 0 for a non-positive total.
pub open spec fn percent(processed: int, total: int) -> int {
    if total > 0 {
        if processed >= 0 {
            (processed * 100) / total
        } else {
            -((-processed * 100) / total)
        }
    } else {
        0
    }
}

/// Whether the percentage of a progress pair fits the signed 64-bit
/// arithmetic it is computed in.
pub open spec fn progress_fits(total: Option<i64>, processed: Option<i64>) -> bool {
    match (total, processed) {
        (Some(t), Some(p)) => t > 0 ==> i64::MIN <= p * 100 <= i64::MAX,
        _ => true,
    }
}

/// A progress entry when both counts are known.
pub open spec fn progress_kv(key: Seq<char>, total: Option<i64>, processed: Option<i64>) -> Seq<FieldView> {
    match (total, processed) {
        (Some(t), Some(p)) => seq![
            kv(
                key,
                dec_int(percent(p as int, t as int)) + "% ("@ + signed_bytes_text(p as int) + "/"@
                    + signed_bytes_text(t as int) + ")"@,
                None,
            ),
        ],
        _ => Seq::empty(),
    }
}

/// The migration progress entries.
pub open spec fn migration_fields(m: ServerMigration) -> Seq<FieldView> {
    seq![
        kv("Status"@, m.status@, None),
        kv("Source"@, m.source_compute@, None),
        kv("Dest"@, m.dest_compute@, None),
    ] + progress_kv("Memory"@, m.memory_total_bytes, m.memory_processed_bytes) + progress_kv(
        "Disk"@,
        m.disk_total_bytes,
        m.disk_processed_bytes,
    )
}

/// A one-table section, when the table has rows.
pub open spec fn table_section(
    name: Seq<char>,
    label: Seq<char>,
    columns: Seq<Seq<char>>,
    rows: Seq<Seq<Seq<char>>>,
) -> Seq<SectionView> {
    if rows.len() > 0 {
        seq![SectionView { name, fields: seq![FieldView::NestedTable { label, columns, rows }] }]
    } else {
        Seq::empty()
    }
}

/// A section of entries, when there are any.
pub open spec fn fields_section(name: Seq<char>, fields: Seq<FieldView>) -> Seq<SectionView> {
    if fields.len() > 0 {
        seq![SectionView { name, fields }]
    } else {
        Seq::empty()
    }
}

/// The detail screen of a server: the pending-confirmation banner, basic
/// info, hardware, address table, floating IPs, security groups, attached
/// volumes and migration progress, each optional section only when it
/// has content.
pub open spec fn server_detail_spec(
    s: Server,
    mig: Option<ServerMigration>,
    flavor: Option<Flavor>,
    is_resize_pending: bool,
    vols: Seq<Volume>,
    fips: Seq<FloatingIp>,
) -> DetailDataView {
    DetailDataView {
        title: "Server: "@ + s.name@,
        sections: banner_sections(s, is_resize_pending) + seq![
            SectionView { name: "Basic Info"@, fields: basic_fields(s, mig) },
            SectionView { name: "Hardware"@, fields: hardware_fields(s, flavor) },
        ] + table_section(
            "Networks"@,
            "Addresses"@,
            seq!["Network"@, "IP"@, "Type"@, "MAC"@],
            address_rows(s.addresses@),
        ) + fields_section(
            "Floating IPs"@,
            fip_entries(floating_texts(flat_addrs(s.addresses@)), fips),
        ) + fields_section(
            "Security Groups"@,
            s.security_groups@.map_values(|g: ServerSecurityGroup| kv("SG"@, g.name@, None)),
        ) + table_section(
            "Volumes"@,
            "Attached"@,
            seq!["Name"@, "Size"@, "Status"@, "Device"@],
            s.volumes_attached@.map_values(
                |v: AttachedVolume| volume_row(s.id@, v.id@, vols),
            ),
        ) + match mig {
            Some(m) => seq![SectionView { name: "Migration Progress"@, fields: migration_fields(m) }],
            None => Seq::empty(),
        },
    }
}

/// What `server_detail_data_full` needs of its inputs: every attached
/// volume ID can be cut after eight bytes, and the migration percentages
/// fit in 64 bits.
pub open spec fn server_detail_ok(s: Server, mig: Option<ServerMigration>) -> bool {
    &&& forall|i: int| 0 <= i < s.volumes_attached@.len() ==> (byte_prefix_len(
        #[trigger] s.volumes_attached@[i].id@,
        8,
    ) is Some)
    &&& match mig {
        Some(m) => progress_fits(m.memory_total_bytes, m.memory_processed_bytes) && progress_fits(
            m.disk_total_bytes,
            m.disk_processed_bytes,
        ),
        None => true,
    }
}

/// The detail screen of a server with no extra data.
pub fn server_detail_data(server: &Server) -> (r: DetailData)
    requires
        server_detail_ok(*server, None),
    ensures
        r@ == server_detail_spec(*server, None, None, false, Seq::empty(), Seq::empty()),
{
    let vols: Vec<Volume> = Vec::new();
    let fips: Vec<FloatingIp> = Vec::new();
    server_detail_data_full(server, None, None, false, vols.as_slice(), fips.as_slice())
}

/// The hardware entries.
fn hardware_data(server: &Server, flavor: Option<&Flavor>) -> (r: Vec<DetailField>)
    ensures
        fields_view(r@) == hardware_fields(*server, match flavor {
            Some(f) => Some(*f),
            None => None,
        }),
{
    let (name, vcpus, ram, disk) = match flavor {
        Some(f) => (
            f.name.clone(),
            u64_text(f.vcpus as u64),
            cat(u64_text(f.ram as u64).as_str(), " MB"),
            cat(u64_text(f.disk as u64).as_str(), " GB"),
        ),
        None => (
            opt_str_or(&server.flavor.original_name, server.flavor.id.as_str()),
            match server.flavor.vcpus {
                Some(v) => u64_text(v as u64),
                None => String::from_str("-"),
            },
            match server.flavor.ram {
                Some(v) => cat(u64_text(v as u64).as_str(), " MB"),
                None => String::from_str("-"),
            },
            match server.flavor.disk {
                Some(v) => cat(u64_text(v as u64).as_str(), " GB"),
                None => String::from_str("-"),
            },
        ),
    };
    let mut r: Vec<DetailField> = Vec::new();
    push_kv(&mut r, "Flavor", name, None);
    push_kv(&mut r, "vCPU", vcpus, None);
    push_kv(&mut r, "RAM", ram, None);
    push_kv(&mut r, "Disk", disk, None);
    proof {
        let fl = match flavor {
            Some(f) => Some(*f),
            None => None,
        };
        assert(fields_view(r@) =~= hardware_fields(*server, fl));
    }
    r
}

/// The address table rows.
fn address_table(nets: &Vec<NetworkAddresses>) -> (r: Vec<Vec<String>>)
    ensures
        table_view(r@) == address_rows(nets@),
{
    let n = nets.len();
    let mut rows: Vec<Vec<String>> = Vec::new();
    let mut k: usize = 0;
    while k < n
        invariant
            n == nets@.len(),
            k <= n,
            table_view(rows@) == address_rows(nets@.subrange(0, k as int)),
        decreases n - k,
    {
        let net = &nets[k];
        let ghost prefix = address_rows(nets@.subrange(0, k as int));
        let ghost f = |a: Address| address_row(net.network@, a);
        let m = net.addrs.len();
        let mut q: usize = 0;
        proof {
            assert(prefix + net.addrs@.subrange(0, 0).map_values(f) =~= prefix);
        }
        while q < m
            invariant
                m == net.addrs@.len(),
                q <= m,
                f == (|a: Address| address_row(net.network@, a)),
                table_view(rows@) == prefix + net.addrs@.subrange(0, q as int).map_values(f),
            decreases m - q,
        {
            let a = &net.addrs[q];
            let row = vec![
                net.network.clone(),
                a.addr.clone(),
                opt_str_or(&a.ip_type, "-"),
                opt_str_or(&a.mac_addr, "-"),
            ];
            let ghost before = rows@;
            rows.push(row);
            proof {
                assert(strs_view(row@) =~= address_row(net.network@, *a));
                assert(table_view(rows@) =~= table_view(before).push(strs_view(row@)));
                assert(net.addrs@.subrange(0, q + 1).map_values(f) =~= net.addrs@.subrange(
                    0,
                    q as int,
                ).map_values(f).push(f(*a)));
            }
            q = q + 1;
        }
        proof {
            let t = nets@.subrange(0, k + 1);
            assert(t.drop_last() =~= nets@.subrange(0, k as int));
            assert(t.last() == *net);
            assert(net.addrs@.subrange(0, m as int) =~= net.addrs@);
        }
        k = k + 1;
    }
    proof {
        assert(nets@.subrange(0, n as int) =~= nets@);
    }
    rows
}

/// The floating IP entries of the server's floating addresses.
fn fip_data(addrs: &Vec<String>, fips: &[FloatingIp]) -> (r: Vec<DetailField>)
    ensures
        fields_view(r@) == fip_entries(strs_view(addrs@), fips@),
{
    let n = addrs.len();
    let mut r: Vec<DetailField> = Vec::new();
    let mut i: usize = 0;
    while i < n
        invariant
            n == addrs@.len(),
            i <= n,
            fields_view(r@) == fip_entries(strs_view(addrs@.subrange(0, i as int)), fips@),
        decreases n - i,
    {
        let addr = addrs[i].as_str();
        let ghost before = fields_view(r@);
        match find_fip_exec(addr, fips) {
            Some(j) => {
                let f = &fips[j];
                let route = cat3(f.floating_ip_address.as_str(), " → ", opt_str_or(&f.fixed_ip_address, "-").as_str());
                push_kv(&mut r, "FIP", route, Some(RowStyleHint::Active));
                push_kv(&mut r, "  ID", f.id.clone(), None);
                push_kv(&mut r, "  Status", f.status.clone(), None);
            },
            None => {
                push_kv(&mut r, "FIP", addrs[i].clone(), Some(RowStyleHint::Active));
            },
        }
        proof {
            let t = strs_view(addrs@.subrange(0, i + 1));
            assert(t.drop_last() =~= strs_view(addrs@.subrange(0, i as int)));
            assert(t.last() == addrs@[i as int]@);
            assert(fields_view(r@) =~= before + fip_entry(addrs@[i as int]@, fips@));
        }
        i = i + 1;
    }
    proof {
        assert(addrs@.subrange(0, n as int) =~= addrs@);
    }
    r
}

/// The security group entries.
fn sg_data(groups: &Vec<ServerSecurityGroup>) -> (r: Vec<DetailField>)
    ensures
        fields_view(r@) == groups@.map_values(|g: ServerSecurityGroup| kv("SG"@, g.name@, None)),
{
    let n = groups.len();
    let mut r: Vec<DetailField> = Vec::new();
    let mut i: usize = 0;
    while i < n
        invariant
            n == groups@.len(),
            i <= n,
            fields_view(r@) == groups@.subrange(0, i as int).map_values(
                |g: ServerSecurityGroup| kv("SG"@, g.name@, None),
            ),
        decreases n - i,
    {
        let ghost before = fields_view(r@);
        push_kv(&mut r, "SG", groups[i].name.clone(), None);
        proof {
            assert(groups@.subrange(0, i + 1).map_values(
                |g: ServerSecurityGroup| kv("SG"@, g.name@, None),
            ) =~= groups@.subrange(0, i as int).map_values(
                |g: ServerSecurityGroup| kv("SG"@, g.name@, None),
            ).push(kv("SG"@, groups@[i as int].name@, None)));
        }
        i = i + 1;
    }
    proof {
        assert(groups@.subrange(0, n as int) =~= groups@);
    }
    r
}

/// The attached volume rows.
fn volume_table(server: &Server, vols: &[Volume]) -> (r: Vec<Vec<String>>)
    requires
        server_detail_ok(*server, None),
    ensures
        table_view(r@) == server.volumes_attached@.map_values(
            |v: AttachedVolume| volume_row(server.id@, v.id@, vols@),
        ),
{
    let atts = &server.volumes_attached;
    let n = atts.len();
    let mut rows: Vec<Vec<String>> = Vec::new();
    let mut i: usize = 0;
    while i < n
        invariant
            n == atts@.len(),
            i <= n,
            atts == server.volumes_attached,
            server_detail_ok(*server, None),
            table_view(rows@) == atts@.subrange(0, i as int).map_values(
                |v: AttachedVolume| volume_row(server.id@, v.id@, vols@),
            ),
        decreases n - i,
    {
        let att = &atts[i];
        proof {
            assert(byte_prefix_len(atts@[i as int].id@, 8) is Some);
        }
        let short = byte_prefix_exec(att.id.as_str(), 8);
        let row = match find_volume_exec(att.id.as_str(), vols) {
            Some(j) => {
                let v = &vols[j];
                let name = match &v.name {
                    Some(nm) => nm.clone(),
                    None => short,
                };
                vec![
                    name,
                    cat(u64_text(v.size).as_str(), " GB"),
                    v.status.clone(),
                    attachment_device(server.id.as_str(), &v.attachments),
                ]
            },
            None => vec![short, String::from_str("-"), String::from_str("-"), String::from_str("-")],
        };
        let ghost before = rows@;
        rows.push(row);
        proof {
            assert(strs_view(row@) =~= volume_row(server.id@, att.id@, vols@));
            assert(table_view(rows@) =~= table_view(before).push(strs_view(row@)));
            assert(atts@.subrange(0, i + 1).map_values(
                |v: AttachedVolume| volume_row(server.id@, v.id@, vols@),
            ) =~= atts@.subrange(0, i as int).map_values(
                |v: AttachedVolume| volume_row(server.id@, v.id@, vols@),
            ).push(volume_row(server.id@, att.id@, vols@)));
        }
        i = i + 1;
    }
    proof {
        assert(atts@.subrange(0, n as int) =~= atts@);
    }
    rows
}

/// The percentage of a progress pair, as the migration view computes it.
fn percent_exec(processed: i64, total: i64) -> (r: i64)
    requires
        total > 0 ==> i64::MIN <= processed * 100 <= i64::MAX,
    ensures
        r == percent(processed as int, total as int),
{
    if total > 0 {
        if processed >= 0 {
            let x: u128 = (processed as u128) * 100;
            let q: u128 = x / (total as u128);
            assert(q <= x) by (nonlinear_arith)
                requires
                    q == x / (total as u128),
                    total >= 1,
            ;
            q as i64
        } else {
            let x: u128 = ((-(processed as i128)) as u128) * 100;
            let q: u128 = x / (total as u128);
            assert(q <= x) by (nonlinear_arith)
                requires
                    q == x / (total as u128),
                    total >= 1,
            ;
            -(q as i64)
        }
    } else {
        0
    }
}

/// A progress entry when both counts are known.
fn push_progress(fields: &mut Vec<DetailField>, key: &str, total: Option<i64>, processed: Option<i64>)
    requires
        progress_fits(total, processed),
    ensures
        fields_view(final(fields)@) == fields_view(old(fields)@) + progress_kv(key@, total, processed),
{
    let ghost before = fields_view(fields@);
    match (total, processed) {
        (Some(t), Some(p)) => {
            let pct = percent_exec(p, t);
            let mut text = i64_text(pct);
            text.append("% (");
            text.append(format_bytes_signed(p).as_str());
            text.append("/");
            text.append(format_bytes_signed(t).as_str());
            text.append(")");
            push_kv(fields, key, text, None);
        },
        _ => {},
    }
    proof {
        assert(fields_view(fields@) =~= before + progress_kv(key@, total, processed));
    }
}

/// Append the pending-confirmation banner when the server waits for one.
fn push_banner(sections: &mut Vec<DetailSection>, server: &Server, is_resize_pending: bool)
    ensures
        sections_view(final(sections)@) == sections_view(old(sections)@) + banner_sections(
            *server,
            is_resize_pending,
        ),
{
    let ghost before = sections_view(sections@);
    if str_eq(server.status.as_str(), "VERIFY_RESIZE") {
        let (title, text) = if is_resize_pending {
            ("⚠ Resize Pending", "Confirm(Y) or Revert(N) resize")
        } else {
            ("⚠ Migration Pending", "Confirm(Y) or Revert(N) migration")
        };
        let mut banner: Vec<DetailField> = Vec::new();
        push_kv(&mut banner, "Action Required", String::from_str(text), Some(RowStyleHint::Warning));
        proof {
            assert(fields_view(banner@) =~= banner_sections(*server, is_resize_pending)[0].fields);
        }
        push_section(sections, section(title, banner));
    }
    proof {
        assert(sections_view(sections@) =~= before + banner_sections(*server, is_resize_pending));
    }
}

/// The basic entries of a server.
fn basic_data(server: &Server, migration_progress: Option<&ServerMigration>) -> (r: Vec<DetailField>)
    ensures
        fields_view(r@) == basic_fields(*server, match migration_progress {
            Some(m) => Some(*m),
            None => None,
        }),
{
    let ghost mig = match migration_progress {
        Some(m) => Some(*m),
        None => None,
    };
    let mut basic: Vec<DetailField> = Vec::new();
    push_kv(&mut basic, "ID", server.id.clone(), None);
    push_kv(&mut basic, "Name", server.name.clone(), None);
    let (_, st) = status_display(server.status.as_str());
    push_kv(&mut basic, "Status", server.status.clone(), Some(st));
    push_opt_kv(&mut basic, "AZ", &server.availability_zone);
    push_opt_kv(&mut basic, "Keypair", &server.key_name);
    push_kv(&mut basic, "Created", server.created.clone(), None);
    let ghost b0 = fields_view(basic@);
    match &server.host {
        Some(h) => match migration_progress {
            Some(m) => {
                let route = cat3(m.source_compute.as_str(), " → ", m.dest_compute.as_str());
                push_kv(&mut basic, "Host", route, Some(RowStyleHint::Warning));
            },
            None => {
                push_kv(&mut basic, "Host", h.clone(), None);
            },
        },
        None => {},
    }
    proof {
        assert(fields_view(basic@) =~= b0 + host_fields(*server, mig));
        assert(fields_view(basic@) =~= basic_fields(*server, mig));
    }
    basic
}

/// Append the address table when the server has addresses.
fn push_networks(sections: &mut Vec<DetailSection>, server: &Server)
    ensures
        sections_view(final(sections)@) == sections_view(old(sections)@) + table_section(
            "Networks"@,
            "Addresses"@,
            seq!["Network"@, "IP"@, "Type"@, "MAC"@],
            address_rows(server.addresses@),
        ),
{
    let ghost before = sections_view(sections@);
    let net_rows = address_table(&server.addresses);
    if net_rows.len() > 0 {
        let columns = vec![
            String::from_str("Network"),
            String::from_str("IP"),
            String::from_str("Type"),
            String::from_str("MAC"),
        ];
        proof {
            assert(strs_view(columns@) =~= seq!["Network"@, "IP"@, "Type"@, "MAC"@]);
        }
        let ghost rv = table_view(net_rows@);
        let fields = vec![DetailField::NestedTable { label: String::from_str("Addresses"), columns, rows: net_rows }];
        proof {
            assert(fields_view(fields@) =~= seq![
                FieldView::NestedTable { label: "Addresses"@, columns: seq!["Network"@, "IP"@, "Type"@, "MAC"@], rows: rv },
            ]);
        }
        push_section(sections, section("Networks", fields));
    }
    proof {
        assert(sections_view(sections@) =~= before + table_section(
            "Networks"@,
            "Addresses"@,
            seq!["Network"@, "IP"@, "Type"@, "MAC"@],
            address_rows(server.addresses@),
        ));
    }
}

/// Append the floating IP entries when the server has floating addresses.
fn push_fips(sections: &mut Vec<DetailSection>, server: &Server, fips: &[FloatingIp])
    ensures
        sections_view(final(sections)@) == sections_view(old(sections)@) + fields_section(
            "Floating IPs"@,
            fip_entries(floating_texts(flat_addrs(server.addresses@)), fips@),
        ),
{
    let ghost before = sections_view(sections@);
    let all = positions(server.addresses.len());
    proof {
        assert(pick(server.addresses@, all@) =~= server.addresses@);
    }
    let (_, floating) = split_by_kind(&server.addresses, &all);
    let fip_fields = fip_data(&floating, fips);
    if fip_fields.len() > 0 {
        push_section(sections, section("Floating IPs", fip_fields));
    }
    proof {
        assert(sections_view(sections@) =~= before + fields_section(
            "Floating IPs"@,
            fip_entries(floating_texts(flat_addrs(server.addresses@)), fips@),
        ));
    }
}

/// Append the security group entries when the server has any.
fn push_groups(sections: &mut Vec<DetailSection>, server: &Server)
    ensures
        sections_view(final(sections)@) == sections_view(old(sections)@) + fields_section(
            "Security Groups"@,
            server.security_groups@.map_values(|g: ServerSecurityGroup| kv("SG"@, g.name@, None)),
        ),
{
    let ghost before = sections_view(sections@);
    if server.security_groups.len() > 0 {
        push_section(sections, section("Security Groups", sg_data(&server.security_groups)));
    }
    proof {
        assert(sections_view(sections@) =~= before + fields_section(
            "Security Groups"@,
            server.security_groups@.map_values(|g: ServerSecurityGroup| kv("SG"@, g.name@, None)),
        ));
    }
}

/// Append the attached volume table when the server has volumes.
fn push_volumes(sections: &mut Vec<DetailSection>, server: &Server, vols: &[Volume])
    requires
        server_detail_ok(*server, None),
    ensures
        sections_view(final(sections)@) == sections_view(old(sections)@) + table_section(
            "Volumes"@,
            "Attached"@,
            seq!["Name"@, "Size"@, "Status"@, "Device"@],
            server.volumes_attached@.map_values(
                |v: AttachedVolume| volume_row(server.id@, v.id@, vols@),
            ),
        ),
{
    let ghost before = sections_view(sections@);
    if server.volumes_attached.len() > 0 {
        let columns = vec![
            String::from_str("Name"),
            String::from_str("Size"),
            String::from_str("Status"),
            String::from_str("Device"),
        ];
        proof {
            assert(strs_view(columns@) =~= seq!["Name"@, "Size"@, "Status"@, "Device"@]);
        }
        let rows = volume_table(server, vols);
        let ghost rv = table_view(rows@);
        let fields = vec![DetailField::NestedTable { label: String::from_str("Attached"), columns, rows }];
        proof {
            assert(fields_view(fields@) =~= seq![
                FieldView::NestedTable { label: "Attached"@, columns: seq!["Name"@, "Size"@, "Status"@, "Device"@], rows: rv },
            ]);
        }
        push_section(sections, section("Volumes", fields));
    }
    proof {
        assert(sections_view(sections@) =~= before + table_section(
            "Volumes"@,
            "Attached"@,
            seq!["Name"@, "Size"@, "Status"@, "Device"@],
            server.volumes_attached@.map_values(
                |v: AttachedVolume| volume_row(server.id@, v.id@, vols@),
            ),
        ));
    }
}

/// Append the migration progress when a migration runs.
fn push_migration(sections: &mut Vec<DetailSection>, migration_progress: Option<&ServerMigration>)
    requires
        match migration_progress {
            Some(m) => progress_fits(m.memory_total_bytes, m.memory_processed_bytes) && progress_fits(
                m.disk_total_bytes,
                m.disk_processed_bytes,
            ),
            None => true,
        },
    ensures
        sections_view(final(sections)@) == sections_view(old(sections)@) + match migration_progress {
            Some(m) => seq![SectionView { name: "Migration Progress"@, fields: migration_fields(*m) }],
            None => Seq::empty(),
        },
{
    let ghost before = sections_view(sections@);
    match migration_progress {
        Some(m) => {
            let mut mf: Vec<DetailField> = Vec::new();
            push_kv(&mut mf, "Status", m.status.clone(), None);
            push_kv(&mut mf, "Source", m.source_compute.clone(), None);
            push_kv(&mut mf, "Dest", m.dest_compute.clone(), None);
            push_progress(&mut mf, "Memory", m.memory_total_bytes, m.memory_processed_bytes);
            push_progress(&mut mf, "Disk", m.disk_total_bytes, m.disk_processed_bytes);
            proof {
                assert(fields_view(mf@) =~= migration_fields(*m));
            }
            push_section(sections, section("Migration Progress", mf));
        },
        None => {},
    }
    proof {
        assert(sections_view(sections@) =~= before + match migration_progress {
            Some(m) => seq![SectionView { name: "Migration Progress"@, fields: migration_fields(*m) }],
            None => Seq::empty(),
        });
    }
}

/// The detail screen of a server, with the running migration, the cached
/// flavor, whether a pending confirmation is a resize, and the cached
/// volumes and floating IPs the screen resolves names from.
pub fn server_detail_data_full(
    server: &Server,
    migration_progress: Option<&ServerMigration>,
    flavor: Option<&Flavor>,
    is_resize_pending: bool,
    cached_volumes: &[Volume],
    cached_floating_ips: &[FloatingIp],
) -> (r: DetailData)
    requires
        server_detail_ok(*server, match migration_progress {
            Some(m) => Some(*m),
            None => None,
        }),
    ensures
        r@ == server_detail_spec(
            *server,
            match migration_progress {
                Some(m) => Some(*m),
                None => None,
            },
            match flavor {
                Some(f) => Some(*f),
                None => None,
            },
            is_resize_pending,
            cached_volumes@,
            cached_floating_ips@,
        ),
{
    let ghost mig = match migration_progress {
        Some(m) => Some(*m),
        None => None,
    };
    let ghost fl = match flavor {
        Some(f) => Some(*f),
        None => None,
    };
    let mut sections: Vec<DetailSection> = Vec::new();
    push_banner(&mut sections, server, is_resize_pending);
    let ghost s0 = sections_view(sections@);
    push_section(&mut sections, section("Basic Info", basic_data(server, migration_progress)));
    push_section(&mut sections, section("Hardware", hardware_data(server, flavor)));
    let ghost s1 = sections_view(sections@);
    push_networks(&mut sections, server);
    let ghost s2 = sections_view(sections@);
    push_fips(&mut sections, server, cached_floating_ips);
    let ghost s3 = sections_view(sections@);
    push_groups(&mut sections, server);
    let ghost s4 = sections_view(sections@);
    push_volumes(&mut sections, server, cached_volumes);
    let ghost s5 = sections_view(sections@);
    push_migration(&mut sections, migration_progress);
    let title = cat("Server: ", server.name.as_str());
    let r = DetailData { title, sections };
    proof {
        assert(s1 =~= s0 + seq![
            SectionView { name: "Basic Info"@, fields: basic_fields(*server, mig) },
            SectionView { name: "Hardware"@, fields: hardware_fields(*server, fl) },
        ]);
        assert(sections_view(r.sections@) =~= server_detail_spec(
            *server,
            mig,
            fl,
            is_resize_pending,
            cached_volumes@,
            cached_floating_ips@,
        ).sections);
    }
    r
}

/// The server table's columns: icon and name, the project and host
/// columns when asked for, then status, address, flavor, image and volumes.
pub open spec fn server_columns_spec(show_tenant: bool, show_host: bool) -> Seq<ColumnView> {
    seq![
        column(""@, ColumnWidth::Fixed(3), ColumnAlign::Center),
        column("Name"@, ColumnWidth::Percent(25), ColumnAlign::Left),
    ]
        + (if show_tenant { seq![column("Project"@, ColumnWidth::Percent(12), ColumnAlign::Left)] } else { Seq::<ColumnView>::empty() })
        + (if show_host { seq![column("Host"@, ColumnWidth::Percent(12), ColumnAlign::Left)] } else { Seq::<ColumnView>::empty() })
        + seq![
        column("Status"@, ColumnWidth::Fixed(12), ColumnAlign::Left),
        column("IP"@, ColumnWidth::Percent(20), ColumnAlign::Left),
        column("Flavor"@, ColumnWidth::Percent(15), ColumnAlign::Left),
        column("Image"@, ColumnWidth::Percent(13), ColumnAlign::Left),
        column("Vol"@, ColumnWidth::Fixed(4), ColumnAlign::Center),
    ]
}

/// The columns of the server table, with the optional ones shown when asked for.
pub fn server_columns_full(show_tenant: bool, show_host: bool) -> (r: Vec<ColumnDef>)
    ensures
        columns_view(r@) == server_columns_spec(show_tenant, show_host),
{
    let mut r: Vec<ColumnDef> = Vec::new();
    push_column(&mut r, "", ColumnWidth::Fixed(3), ColumnAlign::Center);
    push_column(&mut r, "Name", ColumnWidth::Percent(25), ColumnAlign::Left);
    if show_tenant {
        push_column(&mut r, "Project", ColumnWidth::Percent(12), ColumnAlign::Left);
    }
    if show_host {
        push_column(&mut r, "Host", ColumnWidth::Percent(12), ColumnAlign::Left);
    }
    push_column(&mut r, "Status", ColumnWidth::Fixed(12), ColumnAlign::Left);
    push_column(&mut r, "IP", ColumnWidth::Percent(20), ColumnAlign::Left);
    push_column(&mut r, "Flavor", ColumnWidth::Percent(15), ColumnAlign::Left);
    push_column(&mut r, "Image", ColumnWidth::Percent(13), ColumnAlign::Left);
    push_column(&mut r, "Vol", ColumnWidth::Fixed(4), ColumnAlign::Center);
    r
}

/// The columns of the server table without the host column.
pub fn server_columns(show_tenant: bool) -> (r: Vec<ColumnDef>)
    ensures
        columns_view(r@) == server_columns_spec(show_tenant, false),
{
    server_columns_full(show_tenant, false)
}

/// Every server row has one cell per column of the table it is made for.
pub proof fn lemma_server_row_fits_columns(s: Server, show_tenant: bool, show_host: bool)
    ensures
        server_row_spec(s, show_tenant, show_host).cells.len() == server_columns_spec(show_tenant, show_host).len(),
{
}

/// A server's row (without project and host columns) reads its status
/// icon, its name, its status, its addresses, its flavor's name (its ID
/// when the name is unknown), its image ID (or `-` when booted from a
/// volume) and how many volumes are attached (or `-` for none).
pub proof fn lemma_server_row_cells(s: Server)
    ensures
        ({
            let c = server_row_spec(s, false, false).cells;
            let n = s.volumes_attached@.len();
            &&& c.len() == 7
            &&& c[1] == s.name@
            &&& c[2] == s.status@
            &&& c[3] == ips_text(s.addresses@)
            &&& s.flavor.original_name matches Some(f) ==> c[4] == f@
            &&& s.flavor.original_name is None ==> c[4] == s.flavor.id@
            &&& s.image matches Some(i) ==> c[5] == i.id@
            &&& s.image is None ==> c[5] == "-"@
            &&& c[6] == (if n > 0 { dec(n) } else { "-"@ })
        }),
{
}

/// A server's Hardware entries read the flavor's name, its vCPUs, its
/// RAM in MB and its disk in GB, in that order; from the loaded flavor
/// when there is one.
pub proof fn lemma_server_hardware(s: Server, f: Flavor)
    ensures
        hardware_fields(s, Some(f)) == seq![
            kv("Flavor"@, f.name@, None),
            kv("vCPU"@, dec(f.vcpus as nat), None),
            kv("RAM"@, dec(f.ram as nat) + " MB"@, None),
            kv("Disk"@, dec(f.disk as nat) + " GB"@, None),
        ],
        hardware_fields(s, None)[0] == kv("Flavor"@, opt_or(s.flavor.original_name, s.flavor.id@), None),
        ({
            let h = hardware_fields(s, None);
            &&& s.flavor.vcpus matches Some(v) ==> h[1] == kv("vCPU"@, dec(v as nat), None)
            &&& s.flavor.ram matches Some(r) ==> h[2] == kv("RAM"@, dec(r as nat) + " MB"@, None)
            &&& s.flavor.disk matches Some(d) ==> h[3] == kv("Disk"@, dec(d as nat) + " GB"@, None)
        }),
{
}

} // verus!
