//! Volumes as the Docker daemon lists them, with their sizes and the
//! containers that mount them.
use vstd::prelude::*;

use crate::collectors::docker::{display_name, name_from};
use crate::models::DockerVolume;
use crate::order::{sort_unique_names, strictly_sorted};
use crate::text::{eq_ignore_ascii_case, lower, views};

verus! {

/// What the volume listing says of one volume. `usage_size` is the size the
/// listing reports, where it reports one.
#[derive(Clone, Debug)]
pub struct VolumeEntry {
    pub name: String,
    pub driver: String,
    pub usage_size: Option<i64>,
}

/// One mount of a container: its type and, for a volume, the volume's name.
#[derive(Clone, Debug)]
pub struct MountEntry {
    pub typ: Option<String>,
    pub name: Option<String>,
}

/// A container's names and mounts.
#[derive(Clone, Debug)]
pub struct ContainerMounts {
    pub names: Option<Vec<String>>,
    pub mounts: Vec<MountEntry>,
}

/// The mount is of the volume named `vol`.
pub open spec fn mounts_volume(m: MountEntry, vol: Seq<char>) -> bool {
    &&& m.typ matches Some(t) && lower(t@) == lower("volume"@)
    &&& m.name matches Some(n) && n@ == vol
}

/// Some mount among `ms` is of the volume named `vol`.
pub open spec fn any_mount_of(ms: Seq<MountEntry>, vol: Seq<char>) -> bool {
    exists|j: int| 0 <= j < ms.len() && mounts_volume(ms[j], vol)
}

/// The display names of the containers that mount the volume `vol`.
pub open spec fn users(cs: Seq<ContainerMounts>, vol: Seq<char>) -> Set<Seq<char>>
    decreases cs.len(),
{
    if cs.len() == 0 {
        Set::empty()
    } else {
        let prev = users(cs.drop_last(), vol);
        if any_mount_of(cs.last().mounts@, vol) {
            prev.insert(display_name(cs.last().names))
        } else {
            prev
        }
    }
}

/// The size that the disk-usage report gives for `vol`: the last
/// non-negative size reported under that name.
pub open spec fn reported_size(items: Seq<(String, Option<i64>)>, vol: Seq<char>) -> Option<u64>
    decreases items.len(),
{
    if items.len() == 0 {
        None
    } else if items.last().0@ == vol && (items.last().1 matches Some(s) && s >= 0) {
        Some(items.last().1.unwrap() as u64)
    } else {
        reported_size(items.drop_last(), vol)
    }
}

/// A volume's size: the disk-usage report's, else the listing's when it is
/// not negative.
pub open spec fn volume_size(v: VolumeEntry, items: Seq<(String, Option<i64>)>) -> Option<u64> {
    match reported_size(items, v.name@) {
        Some(s) => Some(s),
        None => match v.usage_size {
            Some(s) => if s >= 0 {
                Some(s as u64)
            } else {
                None
            },
            None => None,
        },
    }
}

/// `r` is the dashboard row for volume `v`.
pub open spec fn is_record_of(
    r: DockerVolume,
    v: VolumeEntry,
    items: Seq<(String, Option<i64>)>,
    cs: Seq<ContainerMounts>,
) -> bool {
    &&& r.name@ == v.name@
    &&& r.driver@ == v.driver@
    &&& r.size_bytes == volume_size(v, items)
    &&& strictly_sorted(views(r.container_names@))
    &&& views(r.container_names@).to_set() == users(cs, v.name@)
    &&& r.in_use == (r.container_names@.len() > 0)
}

fn mounts_any(ms: &Vec<MountEntry>, vol: &str) -> (r: bool)
    ensures
        r == any_mount_of(ms@, vol@),
{
    let mut j: usize = 0;
    while j < ms.len()
        invariant
            j <= ms.len(),
            forall|k: int| 0 <= k < j ==> !mounts_volume(#[trigger] ms@[k], vol@),
        decreases ms.len() - j,
    {
        let m = &ms[j];
        let hit = match (&m.typ, &m.name) {
            (Some(t), Some(n)) => eq_ignore_ascii_case(t.as_str(), "volume") && crate::marks::str_eq(
                n.as_str(),
                vol,
            ),
            _ => false,
        };
        if hit {
            assert(mounts_volume(ms@[j as int], vol@));
            return true;
        }
        j = j + 1;
    }
    false
}

/// The names of the containers that mount `vol`, sorted and each once.
pub fn users_of(containers: &Vec<ContainerMounts>, vol: &str) -> (r: Vec<String>)
    ensures
        strictly_sorted(views(r@)),
        views(r@).to_set() == users(containers@, vol@),
{
    let mut raw: Vec<String> = Vec::new();
    let mut i: usize = 0;
    while i < containers.len()
        invariant
            i <= containers.len(),
            views(raw@).to_set() == users(containers@.take(i as int), vol@),
        decreases containers.len() - i,
    {
        assert(containers@.take(i + 1).drop_last() =~= containers@.take(i as int));
        assert(containers@.take(i + 1).last() == containers@[i as int]);
        if mounts_any(&containers[i].mounts, vol) {
            let name = name_from(&containers[i].names);
            let ghost before = raw@;
            raw.push(name);
            proof {
                assert(views(raw@) =~= views(before).push(views(raw@).last()));
                views(before).lemma_push_to_set_commute(views(raw@).last());
            }
        }
        i = i + 1;
    }
    assert(containers@.take(containers.len() as int) =~= containers@);
    sort_unique_names(raw)
}

fn size_of(items: &Vec<(String, Option<i64>)>, vol: &str) -> (r: Option<u64>)
    ensures
        r == reported_size(items@, vol@),
{
    let mut k: usize = items.len();
    assert(items@.take(items.len() as int) =~= items@);
    while k > 0
        invariant
            k <= items.len(),
            reported_size(items@, vol@) == reported_size(items@.take(k as int), vol@),
        decreases k,
    {
        let item = &items[k - 1];
        assert(items@.take(k as int).last() == items@[k - 1]);
        match item.1 {
            Some(s) => {
                if s >= 0 && crate::marks::str_eq(item.0.as_str(), vol) {
                    return Some(s as u64);
                }
            },
            None => {},
        }
        assert(items@.take(k as int).drop_last() =~= items@.take(k - 1));
        k = k - 1;
    }
    None
}

/// The dashboard rows for the listed volumes, in listing order.
pub fn volume_records(
    list: &Vec<VolumeEntry>,
    items: &Vec<(String, Option<i64>)>,
    containers: &Vec<ContainerMounts>,
) -> (r: Vec<DockerVolume>)
    ensures
        r@.len() == list@.len(),
        forall|i: int| 0 <= i < r@.len() ==> is_record_of(#[trigger] r@[i], list@[i], items@, containers@),
{
    let mut r: Vec<DockerVolume> = Vec::new();
    let mut i: usize = 0;
    while i < list.len()
        invariant
            i <= list.len(),
            r@.len() == i,
            forall|k: int| 0 <= k < i ==> is_record_of(#[trigger] r@[k], list@[k], items@, containers@),
        decreases list.len() - i,
    {
        let v = &list[i];
        let size_bytes = match size_of(items, v.name.as_str()) {
            Some(s) => Some(s),
            None => match v.usage_size {
                Some(s) => if s >= 0 {
                    Some(s as u64)
                } else {
                    None
                },
                None => None,
            },
        };
        let container_names = users_of(containers, v.name.as_str());
        let in_use = container_names.len() > 0;
        r.push(DockerVolume {
            name: v.name.clone(),
            driver: v.driver.clone(),
            size_bytes,
            in_use,
            container_names,
        });
        i = i + 1;
    }
    r
}

} // verus!
