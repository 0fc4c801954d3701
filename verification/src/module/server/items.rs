//! The choices the server detail view offers in its popups, and lookups
//! in the cached resources they come from.
use vstd::prelude::*;
use crate::models::cinder::{Volume, VolumeAttachment};
use crate::models::neutron::{FloatingIp, Port};
use crate::models::nova::Flavor;
use vstd::string::*;
use crate::text::{cat, cat3, cat4, dec, opt_or, opt_str_or, str_eq, u64_text};
use crate::ui::select_popup::{items_view, HintView, ItemHint, ItemView, SelectItem};

verus! {

/// The popup item for resizing to flavor `f`, for a server on flavor
/// `current` with a root disk of `disk` GB (when known): the current
/// flavor is marked, a smaller disk is warned about.
pub open spec fn flavor_item(f: Flavor, current: Seq<char>, disk: Option<u32>) -> ItemView {
    ItemView {
        id: f.id@,
        label: f.name@ + " ("@ + dec(f.vcpus as nat) + "vCPU / "@ + dec(f.ram as nat) + "MB / "@ + dec(
            f.disk as nat,
        ) + "GB)"@,
        hint: if f.id@ == current {
            HintView::Current
        } else if disk matches Some(d) && f.disk < d {
            HintView::Warning("disk shrink"@)
        } else {
            HintView::Normal
        },
    }
}

/// The popup items for resizing, one per flavor.
pub open spec fn flavor_items(flavors: Seq<Flavor>, current: Seq<char>, disk: Option<u32>) -> Seq<ItemView> {
    flavors.map_values(|f: Flavor| flavor_item(f, current, disk))
}

/// The items for resizing among `flavors`.
pub fn build_flavor_items(flavors: &Vec<Flavor>, current: &str, disk: Option<u32>) -> (r: Vec<SelectItem>)
    ensures
        items_view(r@) == flavor_items(flavors@, current@, disk),
{
    let mut out: Vec<SelectItem> = Vec::new();
    let mut i: usize = 0;
    while i < flavors.len()
        invariant
            i <= flavors@.len(),
            items_view(out@) == flavor_items(flavors@.take(i as int), current@, disk),
        decreases flavors@.len() - i,
    {
        let f = &flavors[i];
        let head = cat4(f.name.as_str(), " (", u64_text(f.vcpus as u64).as_str(), "vCPU / ");
        let mid = cat4(head.as_str(), u64_text(f.ram as u64).as_str(), "MB / ", u64_text(f.disk as u64).as_str());
        let label = cat(mid.as_str(), "GB)");
        let hint = if str_eq(f.id.as_str(), current) {
            ItemHint::Current
        } else {
            match disk {
                Some(d) => if f.disk < d {
                    ItemHint::Warning(String::from_str("disk shrink"))
                } else {
                    ItemHint::Normal
                },
                None => ItemHint::Normal,
            }
        };
        let item = SelectItem { id: f.id.clone(), label, hint };
        let ghost before = out@;
        out.push(item);
        proof {
            assert(items_view(out@) =~= items_view(before).push(item.view()));
            assert(flavors@.take(i + 1) =~= flavors@.take(i as int).push(flavors@[i as int]));
            assert(flavor_items(flavors@.take(i + 1), current@, disk) =~= flavor_items(flavors@.take(i as int), current@, disk).push(
                flavor_item(flavors@[i as int], current@, disk),
            ));
        }
        i = i + 1;
    }
    proof {
        assert(flavors@.take(flavors@.len() as int) =~= flavors@);
    }
    out
}

/// The popup items for attaching: one per available volume, showing its
/// name, size and type.
pub open spec fn available_volume_items(vols: Seq<Volume>) -> Seq<ItemView>
    decreases vols.len(),
{
    if vols.len() == 0 {
        Seq::empty()
    } else {
        let prev = available_volume_items(vols.drop_last());
        let v = vols.last();
        if v.status@ == "available"@ {
            prev.push(
                ItemView {
                    id: v.id@,
                    label: opt_or(v.name, "-"@) + " ("@ + dec(v.size as nat) + "GB, "@ + opt_or(v.volume_type, "-"@)
                        + ")"@,
                    hint: HintView::Normal,
                },
            )
        } else {
            prev
        }
    }
}

/// The items for attaching among `vols`.
pub fn build_available_volume_items(vols: &Vec<Volume>) -> (r: Vec<SelectItem>)
    ensures
        items_view(r@) == available_volume_items(vols@),
{
    let mut out: Vec<SelectItem> = Vec::new();
    let mut i: usize = 0;
    while i < vols.len()
        invariant
            i <= vols@.len(),
            items_view(out@) == available_volume_items(vols@.take(i as int)),
        decreases vols@.len() - i,
    {
        proof {
            assert(vols@.take(i + 1).drop_last() =~= vols@.take(i as int));
        }
        let v = &vols[i];
        if str_eq(v.status.as_str(), "available") {
            let head = cat4(opt_str_or(&v.name, "-").as_str(), " (", u64_text(v.size).as_str(), "GB, ");
            let label = cat3(head.as_str(), opt_str_or(&v.volume_type, "-").as_str(), ")");
            let item = SelectItem { id: v.id.clone(), label, hint: ItemHint::Normal };
            let ghost before = out@;
            out.push(item);
            proof {
                assert(items_view(out@) =~= items_view(before).push(item.view()));
            }
        }
        i = i + 1;
    }
    proof {
        assert(vols@.take(vols@.len() as int) =~= vols@);
    }
    out
}

/// The detach items of volume `v` for its attachments `atts` to server
/// `sid`: `volume:attachment` ids, name, device and size, a warning on a
/// bootable volume.
pub open spec fn attachment_items(v: Volume, atts: Seq<VolumeAttachment>, sid: Seq<char>) -> Seq<ItemView>
    decreases atts.len(),
{
    if atts.len() == 0 {
        Seq::empty()
    } else {
        let prev = attachment_items(v, atts.drop_last(), sid);
        let a = atts.last();
        if a.server_id@ == sid {
            prev.push(
                ItemView {
                    id: v.id@ + ":"@ + a.id@,
                    label: opt_or(v.name, "-"@) + " ("@ + a.device@ + ", "@ + dec(v.size as nat) + "GB)"@,
                    hint: if v.bootable@ == "true"@ {
                        HintView::Warning("boot"@)
                    } else {
                        HintView::Normal
                    },
                },
            )
        } else {
            prev
        }
    }
}

/// The popup items for detaching from server `sid`: one per attachment
/// of an in-use volume to it.
pub open spec fn attached_volume_items(vols: Seq<Volume>, sid: Seq<char>) -> Seq<ItemView>
    decreases vols.len(),
{
    if vols.len() == 0 {
        Seq::empty()
    } else {
        let prev = attached_volume_items(vols.drop_last(), sid);
        let v = vols.last();
        if v.status@ == "in-use"@ {
            prev + attachment_items(v, v.attachments@, sid)
        } else {
            prev
        }
    }
}

/// The items for detaching from server `sid` among `vols`.
pub fn build_attached_volume_items(vols: &Vec<Volume>, sid: &str) -> (r: Vec<SelectItem>)
    ensures
        items_view(r@) == attached_volume_items(vols@, sid@),
{
    let mut out: Vec<SelectItem> = Vec::new();
    let mut i: usize = 0;
    while i < vols.len()
        invariant
            i <= vols@.len(),
            items_view(out@) == attached_volume_items(vols@.take(i as int), sid@),
        decreases vols@.len() - i,
    {
        proof {
            assert(vols@.take(i + 1).drop_last() =~= vols@.take(i as int));
        }
        let v = &vols[i];
        if str_eq(v.status.as_str(), "in-use") {
            let ghost base = items_view(out@);
            let boot = str_eq(v.bootable.as_str(), "true");
            let name = opt_str_or(&v.name, "-");
            let size = u64_text(v.size);
            let mut j: usize = 0;
            while j < v.attachments.len()
                invariant
                    j <= v.attachments@.len(),
                    boot == (v.bootable@ == "true"@),
                    name@ == opt_or(v.name, "-"@),
                    size@ == dec(v.size as nat),
                    items_view(out@) == base + attachment_items(*v, v.attachments@.take(j as int), sid@),
                decreases v.attachments@.len() - j,
            {
                proof {
                    assert(v.attachments@.take(j + 1).drop_last() =~= v.attachments@.take(j as int));
                }
                let a = &v.attachments[j];
                if str_eq(a.server_id.as_str(), sid) {
                    let id = cat3(v.id.as_str(), ":", a.id.as_str());
                    let head = cat4(name.as_str(), " (", a.device.as_str(), ", ");
                    let label = cat3(head.as_str(), size.as_str(), "GB)");
                    let hint = if boot {
                        ItemHint::Warning(String::from_str("boot"))
                    } else {
                        ItemHint::Normal
                    };
                    let item = SelectItem { id, label, hint };
                    let ghost before = out@;
                    out.push(item);
                    proof {
                        assert(items_view(out@) =~= items_view(before).push(item.view()));
                    }
                }
                j = j + 1;
            }
            proof {
                assert(v.attachments@.take(v.attachments@.len() as int) =~= v.attachments@);
            }
        }
        i = i + 1;
    }
    proof {
        assert(vols@.take(vols@.len() as int) =~= vols@);
    }
    out
}

/// The popup items for associating: one per floating IP not bound to a
/// port, showing its address.
pub open spec fn free_fip_items(fips: Seq<FloatingIp>) -> Seq<ItemView>
    decreases fips.len(),
{
    if fips.len() == 0 {
        Seq::empty()
    } else {
        let prev = free_fip_items(fips.drop_last());
        let f = fips.last();
        if f.port_id is None {
            prev.push(ItemView { id: f.id@, label: f.floating_ip_address@, hint: HintView::Normal })
        } else {
            prev
        }
    }
}

/// The items for associating among `fips`.
pub fn build_available_fip_items(fips: &Vec<FloatingIp>) -> (r: Vec<SelectItem>)
    ensures
        items_view(r@) == free_fip_items(fips@),
{
    let mut out: Vec<SelectItem> = Vec::new();
    let mut i: usize = 0;
    while i < fips.len()
        invariant
            i <= fips@.len(),
            items_view(out@) == free_fip_items(fips@.take(i as int)),
        decreases fips@.len() - i,
    {
        proof {
            assert(fips@.take(i + 1).drop_last() =~= fips@.take(i as int));
        }
        let f = &fips[i];
        if f.port_id.is_none() {
            let item = SelectItem { id: f.id.clone(), label: f.floating_ip_address.clone(), hint: ItemHint::Normal };
            let ghost before = out@;
            out.push(item);
            proof {
                assert(items_view(out@) =~= items_view(before).push(item.view()));
            }
        }
        i = i + 1;
    }
    proof {
        assert(fips@.take(fips@.len() as int) =~= fips@);
    }
    out
}

/// The popup items for choosing a port: one per port, with its label.
pub open spec fn port_items(ports: Seq<Port>, labels: Seq<String>) -> Seq<ItemView> {
    Seq::new(ports.len(), |i: int| ItemView { id: ports[i].id@, label: labels[i]@, hint: HintView::Normal })
}

/// The items for choosing among `ports`, labelled by `labels`.
pub fn build_port_items(ports: &Vec<Port>, labels: &Vec<String>) -> (r: Vec<SelectItem>)
    requires
        labels@.len() == ports@.len(),
    ensures
        items_view(r@) == port_items(ports@, labels@),
{
    let mut out: Vec<SelectItem> = Vec::new();
    let mut i: usize = 0;
    while i < ports.len()
        invariant
            i <= ports@.len(),
            labels@.len() == ports@.len(),
            items_view(out@) == port_items(ports@, labels@).take(i as int),
        decreases ports@.len() - i,
    {
        let item = SelectItem { id: ports[i].id.clone(), label: labels[i].clone(), hint: ItemHint::Normal };
        let ghost before = out@;
        out.push(item);
        proof {
            assert(items_view(out@) =~= items_view(before).push(item.view()));
            assert(port_items(ports@, labels@).take(i + 1) =~= port_items(ports@, labels@).take(i as int).push(
                item.view(),
            ));
        }
        i = i + 1;
    }
    proof {
        assert(port_items(ports@, labels@).take(ports@.len() as int) =~= port_items(ports@, labels@));
    }
    out
}

/// The first flavor with id `id`.
pub open spec fn find_flavor(id: Seq<char>, flavors: Seq<Flavor>) -> Option<Flavor>
    decreases flavors.len(),
{
    if flavors.len() == 0 {
        None
    } else if flavors[0].id@ == id {
        Some(flavors[0])
    } else {
        find_flavor(id, flavors.drop_first())
    }
}

/// Where the first flavor with id `id` is.
pub fn find_flavor_exec(id: &str, flavors: &Vec<Flavor>) -> (r: Option<usize>)
    ensures
        match r {
            Some(j) => j < flavors@.len() && find_flavor(id@, flavors@) == Some(flavors@[j as int]),
            None => find_flavor(id@, flavors@) is None,
        },
{
    let n = flavors.len();
    let mut j: usize = 0;
    proof {
        assert(flavors@.skip(0) =~= flavors@);
    }
    while j < n
        invariant
            n == flavors@.len(),
            j <= n,
            find_flavor(id@, flavors@) == find_flavor(id@, flavors@.skip(j as int)),
        decreases n - j,
    {
        proof {
            assert(flavors@.skip(j as int)[0] == flavors@[j as int]);
            assert(flavors@.skip(j as int).drop_first() =~= flavors@.skip(j + 1));
        }
        if str_eq(flavors[j].id.as_str(), id) {
            return Some(j);
        }
        j = j + 1;
    }
    None
}

/// The first floating IP with id `id`.
pub open spec fn find_fip_by_id(id: Seq<char>, fips: Seq<FloatingIp>) -> Option<FloatingIp>
    decreases fips.len(),
{
    if fips.len() == 0 {
        None
    } else if fips[0].id@ == id {
        Some(fips[0])
    } else {
        find_fip_by_id(id, fips.drop_first())
    }
}

/// Where the first floating IP with id `id` is.
pub fn find_fip_by_id_exec(id: &str, fips: &Vec<FloatingIp>) -> (r: Option<usize>)
    ensures
        match r {
            Some(j) => j < fips@.len() && find_fip_by_id(id@, fips@) == Some(fips@[j as int]),
            None => find_fip_by_id(id@, fips@) is None,
        },
{
    let n = fips.len();
    let mut j: usize = 0;
    proof {
        assert(fips@.skip(0) =~= fips@);
    }
    while j < n
        invariant
            n == fips@.len(),
            j <= n,
            find_fip_by_id(id@, fips@) == find_fip_by_id(id@, fips@.skip(j as int)),
        decreases n - j,
    {
        proof {
            assert(fips@.skip(j as int)[0] == fips@[j as int]);
            assert(fips@.skip(j as int).drop_first() =~= fips@.skip(j + 1));
        }
        if str_eq(fips[j].id.as_str(), id) {
            return Some(j);
        }
        j = j + 1;
    }
    None
}

/// Position of the first port with id `id`.
pub open spec fn port_pos(id: Seq<char>, ports: Seq<Port>) -> Option<int>
    decreases ports.len(),
{
    if ports.len() == 0 {
        None
    } else if ports[0].id@ == id {
        Some(0)
    } else {
        match port_pos(id, ports.drop_first()) {
            Some(k) => Some(k + 1),
            None => None,
        }
    }
}

/// Position of the first port with id `id`.
pub fn port_pos_exec(id: &str, ports: &Vec<Port>) -> (r: Option<usize>)
    ensures
        match r {
            Some(j) => j < ports@.len() && port_pos(id@, ports@) == Some(j as int),
            None => port_pos(id@, ports@) is None,
        },
{
    let n = ports.len();
    let mut j: usize = 0;
    proof {
        assert(ports@.skip(0) =~= ports@);
    }
    while j < n
        invariant
            n == ports@.len(),
            j <= n,
            port_pos(id@, ports@) == match port_pos(id@, ports@.skip(j as int)) {
                Some(k) => Some(k + j),
                None => None,
            },
        decreases n - j,
    {
        proof {
            assert(ports@.skip(j as int)[0] == ports@[j as int]);
            assert(ports@.skip(j as int).drop_first() =~= ports@.skip(j + 1));
        }
        if str_eq(ports[j].id.as_str(), id) {
            return Some(j);
        }
        j = j + 1;
    }
    None
}

/// The first attachment with id `id`.
pub open spec fn find_attachment_by_id(id: Seq<char>, atts: Seq<VolumeAttachment>) -> Option<VolumeAttachment>
    decreases atts.len(),
{
    if atts.len() == 0 {
        None
    } else if atts[0].id@ == id {
        Some(atts[0])
    } else {
        find_attachment_by_id(id, atts.drop_first())
    }
}

/// Where the first attachment with id `id` is.
pub fn find_attachment_by_id_exec(id: &str, atts: &Vec<VolumeAttachment>) -> (r: Option<usize>)
    ensures
        match r {
            Some(j) => j < atts@.len() && find_attachment_by_id(id@, atts@) == Some(atts@[j as int]),
            None => find_attachment_by_id(id@, atts@) is None,
        },
{
    let n = atts.len();
    let mut j: usize = 0;
    proof {
        assert(atts@.skip(0) =~= atts@);
    }
    while j < n
        invariant
            n == atts@.len(),
            j <= n,
            find_attachment_by_id(id@, atts@) == find_attachment_by_id(id@, atts@.skip(j as int)),
        decreases n - j,
    {
        proof {
            assert(atts@.skip(j as int)[0] == atts@[j as int]);
            assert(atts@.skip(j as int).drop_first() =~= atts@.skip(j + 1));
        }
        if str_eq(atts[j].id.as_str(), id) {
            return Some(j);
        }
        j = j + 1;
    }
    None
}

/// Where `s` splits at its first `:`: the index of that colon.
pub open spec fn first_colon(s: Seq<char>) -> Option<int>
    decreases s.len(),
{
    if s.len() == 0 {
        None
    } else if s[0] == ':' {
        Some(0)
    } else {
        match first_colon(s.drop_first()) {
            Some(k) => Some(k + 1),
            None => None,
        }
    }
}

/// `s` split at its first `:`, the colon dropped; `None` without one.
pub fn split_first_colon(s: &str) -> (r: Option<(String, String)>)
    ensures
        match first_colon(s@) {
            Some(k) => r matches Some(p) && p.0@ == s@.take(k) && p.1@ == s@.skip(k + 1),
            None => r is None,
        },
{
    let n = s.unicode_len();
    let mut j: usize = 0;
    proof {
        assert(s@.skip(0) =~= s@);
    }
    while j < n
        invariant
            n == s@.len(),
            j <= n,
            forall|i: int| 0 <= i < j ==> s@[i] != ':',
            first_colon(s@) == match first_colon(s@.skip(j as int)) {
                Some(k) => Some(k + j),
                None => None,
            },
        decreases n - j,
    {
        proof {
            assert(s@.skip(j as int)[0] == s@[j as int]);
            assert(s@.skip(j as int).drop_first() =~= s@.skip(j + 1));
        }
        if s.get_char(j) == ':' {
            let before = s.substring_char(0, j);
            let after = s.substring_char(j + 1, n);
            proof {
                assert(before@ =~= s@.take(j as int));
                assert(after@ =~= s@.skip(j + 1));
            }
            return Some((String::from_str(before), String::from_str(after)));
        }
        j = j + 1;
    }
    proof {
        assert(s@.skip(n as int) =~= Seq::<char>::empty());
    }
    None
}

} // verus!
