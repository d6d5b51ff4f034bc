//! State of the menu bar: the frame-rate label, the audio input devices with
//! their check marks, and which command a selected menu item stands for.
//!
//! Menu items are known by the identifiers that the menu toolkit gave them
//! when they were created; audio devices by their SDL instance id.
use vstd::prelude::*;

use crate::text::fps_label_text;

verus! {

/// A command chosen in the menu bar.
#[derive(Clone, Copy, Debug, PartialEq, Eq, Structural)]
pub enum MenuCommand {
    /// Record from the audio device with this instance id.
    SwitchAudioDevice(u32),
    /// Record from the next audio input device.
    NextInputDevice,
    /// Play the next preset.
    NextPreset,
    /// Play the previous preset.
    PrevPreset,
    /// Play a random preset.
    RandomPreset,
}

/// One audio input device listed in the menu.
pub struct DeviceEntry {
    /// Identifier of the device's check item.
    pub item_id: String,
    /// Instance id of the device.
    pub device: u32,
    /// Name of the device, as shown in the menu.
    pub name: String,
}

/// Identifiers that the menu toolkit gave to the items the menu bar reacts to.
pub struct MenuItemIds {
    pub next_preset: String,
    pub prev_preset: String,
    pub random_preset: String,
    pub next_device: String,
    /// One identifier per listed device, in the order of the devices.
    pub devices: Vec<String>,
}

/// The menu bar's state. The check marks run index for index with the
/// listed devices.
pub struct MenuBar {
    /// Text of the read-only frame-rate item.
    fps_label: String,
    /// The listed devices, in menu order.
    devices: Vec<DeviceEntry>,
    /// Check mark of each listed device.
    checked: Vec<bool>,
    next_preset_id: String,
    prev_preset_id: String,
    random_preset_id: String,
    next_device_id: String,
}

/// Index of the last of the first `n` entries named `name`: a lookup by name
/// finds that entry, later ones replacing earlier ones of the same name.
pub open spec fn last_named(entries: Seq<DeviceEntry>, name: Seq<char>, n: int) -> Option<int>
    decreases n,
{
    if n <= 0 {
        None
    } else if entries[n - 1].name@ == name {
        Some(n - 1)
    } else {
        last_named(entries, name, n - 1)
    }
}

/// Index of the last of the first `n` entries whose item is `id`.
pub open spec fn last_with_item(entries: Seq<DeviceEntry>, id: Seq<char>, n: int) -> Option<int>
    decreases n,
{
    if n <= 0 {
        None
    } else if entries[n - 1].item_id@ == id {
        Some(n - 1)
    } else {
        last_with_item(entries, id, n - 1)
    }
}

/// `entry` lists `device` (its instance id and name) under the item `item_id`.
pub open spec fn lists(entry: DeviceEntry, item_id: String, device: (u32, String)) -> bool {
    &&& entry.item_id == item_id
    &&& entry.device == device.0
    &&& entry.name == device.1
}

/// Whether a device named `name` starts out checked: it is the current device.
pub open spec fn starts_checked(current_device_name: Option<&str>, name: Seq<char>) -> bool {
    current_device_name matches Some(c) && c@ == name
}

/// No two of the identifiers share a text.
pub open spec fn ids_distinct(ids: MenuItemIds) -> bool {
    &&& ids.next_preset@ != ids.prev_preset@
    &&& ids.next_preset@ != ids.random_preset@
    &&& ids.next_preset@ != ids.next_device@
    &&& ids.prev_preset@ != ids.random_preset@
    &&& ids.prev_preset@ != ids.next_device@
    &&& ids.random_preset@ != ids.next_device@
    &&& forall|i: int|
        0 <= i < ids.devices.len() ==> {
            let id = #[trigger] ids.devices@[i]@;
            &&& id != ids.next_preset@
            &&& id != ids.prev_preset@
            &&& id != ids.random_preset@
            &&& id != ids.next_device@
        }
    &&& forall|i: int, j: int|
        0 <= i < ids.devices.len() && 0 <= j < ids.devices.len() && i != j
            ==> #[trigger] ids.devices@[i]@ != #[trigger] ids.devices@[j]@
}

impl MenuBar {
    /// There is one check mark per listed device.
    #[verifier::type_invariant]
    spec fn wf(self) -> bool {
        self.checked.len() == self.devices.len()
    }

    /// Text of the frame-rate label.
    pub closed spec fn spec_fps_label(&self) -> Seq<char> {
        self.fps_label@
    }

    /// The listed devices, in menu order.
    pub closed spec fn spec_devices(&self) -> Seq<DeviceEntry> {
        self.devices@
    }

    /// The check mark of each listed device.
    pub closed spec fn spec_checked(&self) -> Seq<bool> {
        self.checked@
    }

    /// Identifier of the "Next Preset" item.
    pub closed spec fn spec_next_preset_id(&self) -> Seq<char> {
        self.next_preset_id@
    }

    /// Identifier of the "Previous Preset" item.
    pub closed spec fn spec_prev_preset_id(&self) -> Seq<char> {
        self.prev_preset_id@
    }

    /// Identifier of the "Random Preset" item.
    pub closed spec fn spec_random_preset_id(&self) -> Seq<char> {
        self.random_preset_id@
    }

    /// Identifier of the "Next Input Device" item.
    pub closed spec fn spec_next_device_id(&self) -> Seq<char> {
        self.next_device_id@
    }

    /// The command that the menu item `id` stands for, if any.
    pub open spec fn command_for(&self, id: Seq<char>) -> Option<MenuCommand> {
        if id == self.spec_next_preset_id() {
            Some(MenuCommand::NextPreset)
        } else if id == self.spec_prev_preset_id() {
            Some(MenuCommand::PrevPreset)
        } else if id == self.spec_random_preset_id() {
            Some(MenuCommand::RandomPreset)
        } else if id == self.spec_next_device_id() {
            Some(MenuCommand::NextInputDevice)
        } else {
            match last_with_item(self.spec_devices(), id, self.spec_devices().len() as int) {
                Some(i) => Some(MenuCommand::SwitchAudioDevice(self.spec_devices()[i].device)),
                None => None,
            }
        }
    }

    /// No two items of the menu bar share an identifier.
    pub open spec fn items_distinct(&self) -> bool {
        &&& self.spec_next_preset_id() != self.spec_prev_preset_id()
        &&& self.spec_next_preset_id() != self.spec_random_preset_id()
        &&& self.spec_next_preset_id() != self.spec_next_device_id()
        &&& self.spec_prev_preset_id() != self.spec_random_preset_id()
        &&& self.spec_prev_preset_id() != self.spec_next_device_id()
        &&& self.spec_random_preset_id() != self.spec_next_device_id()
        &&& forall|i: int|
            0 <= i < self.spec_devices().len() ==> {
                let id = #[trigger] self.spec_devices()[i].item_id@;
                &&& id != self.spec_next_preset_id()
                &&& id != self.spec_prev_preset_id()
                &&& id != self.spec_random_preset_id()
                &&& id != self.spec_next_device_id()
            }
        &&& forall|i: int, j: int|
            0 <= i < self.spec_devices().len() && 0 <= j < self.spec_devices().len() && i != j
                ==> #[trigger] self.spec_devices()[i].item_id@ != #[trigger] self.spec_devices()[j].item_id@
    }

    /// Builds the menu bar for the given frame rate and recording devices;
    /// the device named `current_device_name` starts out checked.
    pub fn new(
        frame_rate: u32,
        devices: &Vec<(u32, String)>,
        current_device_name: Option<&str>,
        ids: MenuItemIds,
    ) -> (bar: MenuBar)
        requires
            ids.devices.len() == devices.len(),
        ensures
            bar.spec_fps_label() == fps_label_text(frame_rate),
            bar.spec_next_preset_id() == ids.next_preset@,
            bar.spec_prev_preset_id() == ids.prev_preset@,
            bar.spec_random_preset_id() == ids.random_preset@,
            bar.spec_next_device_id() == ids.next_device@,
            bar.spec_devices().len() == devices.len(),
            bar.spec_checked().len() == devices.len(),
            forall|i: int|
                0 <= i < devices.len() ==> #[trigger] lists(
                    bar.spec_devices()[i],
                    ids.devices@[i],
                    devices@[i],
                ),
            forall|i: int|
                0 <= i < devices.len() ==> #[trigger] bar.spec_checked()[i] == starts_checked(
                    current_device_name,
                    devices@[i].1@,
                ),
            ids_distinct(ids) ==> bar.items_distinct(),
    {
        let ghost given = ids;
        let (entries, checked) = Self::build_device_items(devices, current_device_name, &ids.devices);
        let bar = MenuBar {
            fps_label: crate::text::fps_label(frame_rate),
            devices: entries,
            checked,
            next_preset_id: ids.next_preset,
            prev_preset_id: ids.prev_preset,
            random_preset_id: ids.random_preset,
            next_device_id: ids.next_device,
        };
        proof {
            if ids_distinct(given) {
                lemma_new_keeps_items_distinct(bar, devices@, given);
            }
        }
        bar
    }

    /// Lists the devices, each with its item identifier, checked where its
    /// name is `current_device_name`.
    fn build_device_items(
        devices: &Vec<(u32, String)>,
        current_device_name: Option<&str>,
        item_ids: &Vec<String>,
    ) -> (r: (Vec<DeviceEntry>, Vec<bool>))
        requires
            item_ids.len() == devices.len(),
        ensures
            r.0.len() == devices.len(),
            r.1.len() == devices.len(),
            forall|i: int|
                0 <= i < devices.len() ==> #[trigger] lists(r.0@[i], item_ids@[i], devices@[i]),
            forall|i: int|
                0 <= i < devices.len() ==> #[trigger] r.1@[i] == starts_checked(
                    current_device_name,
                    devices@[i].1@,
                ),
    {
        let current: Option<String> = match current_device_name {
            Some(c) => Some(c.to_owned()),
            None => None,
        };
        let mut entries: Vec<DeviceEntry> = Vec::new();
        let mut checked: Vec<bool> = Vec::new();
        let n = devices.len();
        let mut idx: usize = 0;
        while idx < n
            invariant
                n == devices.len(),
                item_ids.len() == devices.len(),
                idx <= n,
                entries.len() == idx,
                checked.len() == idx,
                match current {
                    Some(c) => current_device_name matches Some(d) && c@ == d@,
                    None => current_device_name is None,
                },
                forall|i: int|
                    0 <= i < idx ==> #[trigger] lists(entries@[i], item_ids@[i], devices@[i]),
                forall|i: int|
                    0 <= i < idx ==> #[trigger] checked@[i] == starts_checked(
                        current_device_name,
                        devices@[i].1@,
                    ),
            decreases n - idx,
        {
            let is_current = match &current {
                Some(c) => *c == devices[idx].1,
                None => false,
            };
            entries.push(
                DeviceEntry {
                    item_id: item_ids[idx].clone(),
                    device: devices[idx].0,
                    name: devices[idx].1.clone(),
                },
            );
            checked.push(is_current);
            idx = idx + 1;
        }
        (entries, checked)
    }

    /// Updates the frame-rate label.
    pub fn update_fps(&mut self, fps: u32)
        ensures
            final(self).spec_fps_label() == fps_label_text(fps),
            final(self).spec_devices() == old(self).spec_devices(),
            final(self).spec_checked() == old(self).spec_checked(),
            final(self).spec_next_preset_id() == old(self).spec_next_preset_id(),
            final(self).spec_prev_preset_id() == old(self).spec_prev_preset_id(),
            final(self).spec_random_preset_id() == old(self).spec_random_preset_id(),
            final(self).spec_next_device_id() == old(self).spec_next_device_id(),
    {
        proof {
            use_type_invariant(&*self);
        }
        self.fps_label = crate::text::fps_label(fps);
    }

    /// Marks the device named `name` as the one in use: exactly the entry
    /// that a lookup by that name finds is checked afterwards, and no entry
    /// is checked when no device has that name.
    pub fn update_device(&mut self, name: &str)
        ensures
            final(self).spec_checked().len() == old(self).spec_devices().len(),
            forall|i: int|
                0 <= i < old(self).spec_devices().len() ==> #[trigger] final(self).spec_checked()[i]
                    == (last_named(
                    old(self).spec_devices(),
                    name@,
                    old(self).spec_devices().len() as int,
                ) == Some(i)),
            forall|i: int, j: int|
                0 <= i < old(self).spec_devices().len() && 0 <= j < old(self).spec_devices().len()
                    && #[trigger] final(self).spec_checked()[i]
                    && #[trigger] final(self).spec_checked()[j] ==> i == j,
            forall|i: int|
                0 <= i < old(self).spec_devices().len() && #[trigger] final(self).spec_checked()[i]
                    ==> old(self).spec_devices()[i].name@ == name@,
            (exists|i: int|
                0 <= i < old(self).spec_devices().len() && old(self).spec_devices()[i].name@
                    == name@) ==> (exists|i: int|
                0 <= i < old(self).spec_devices().len() && #[trigger] final(self).spec_checked()[i]),
            final(self).spec_fps_label() == old(self).spec_fps_label(),
            final(self).spec_devices() == old(self).spec_devices(),
            final(self).spec_next_preset_id() == old(self).spec_next_preset_id(),
            final(self).spec_prev_preset_id() == old(self).spec_prev_preset_id(),
            final(self).spec_random_preset_id() == old(self).spec_random_preset_id(),
            final(self).spec_next_device_id() == old(self).spec_next_device_id(),
    {
        let target = name.to_owned();
        let n = self.devices.len();
        let mut found: Option<usize> = None;
        let mut i: usize = 0;
        while i < n
            invariant
                n == self.devices.len(),
                i <= n,
                target@ == name@,
                match found {
                    Some(k) => last_named(self.devices@, name@, i as int) == Some(k as int),
                    None => last_named(self.devices@, name@, i as int) is None,
                },
            decreases n - i,
        {
            if self.devices[i].name == target {
                found = Some(i);
            }
            i = i + 1;
        }
        let mut checked: Vec<bool> = Vec::new();
        let mut j: usize = 0;
        while j < n
            invariant
                n == self.devices.len(),
                j <= n,
                checked.len() == j,
                match found {
                    Some(k) => last_named(self.devices@, name@, n as int) == Some(k as int),
                    None => last_named(self.devices@, name@, n as int) is None,
                },
                forall|k: int|
                    0 <= k < j ==> #[trigger] checked@[k] == (last_named(
                        self.devices@,
                        name@,
                        n as int,
                    ) == Some(k)),
            decreases n - j,
        {
            let on = match found {
                Some(k) => k == j,
                None => false,
            };
            checked.push(on);
            j = j + 1;
        }
        proof {
            lemma_last_named_found(self.devices@, name@, n as int);
        }
        self.checked = checked;
        proof {
            if let Some(k) = found {
                assert(self.spec_checked()[k as int]);
            }
        }
    }

    /// The command for a selected menu item, given the identifier of the
    /// pending menu event if there is one.
    pub fn poll_command(&self, event_id: Option<String>) -> (cmd: Option<MenuCommand>)
        ensures
            cmd == match event_id {
                Some(id) => self.command_for(id@),
                None => None,
            },
    {
        let id = match event_id {
            Some(id) => id,
            None => {
                return None;
            },
        };
        if id == self.next_preset_id {
            Some(MenuCommand::NextPreset)
        } else if id == self.prev_preset_id {
            Some(MenuCommand::PrevPreset)
        } else if id == self.random_preset_id {
            Some(MenuCommand::RandomPreset)
        } else if id == self.next_device_id {
            Some(MenuCommand::NextInputDevice)
        } else {
            let n = self.devices.len();
            let mut found: Option<u32> = None;
            let mut i: usize = 0;
            while i < n
                invariant
                    n == self.devices.len(),
                    i <= n,
                    match last_with_item(self.devices@, id@, i as int) {
                        Some(k) => found == Some(self.devices@[k].device),
                        None => found is None,
                    },
                decreases n - i,
            {
                if self.devices[i].item_id == id {
                    found = Some(self.devices[i].device);
                }
                i = i + 1;
            }
            match found {
                Some(device) => Some(MenuCommand::SwitchAudioDevice(device)),
                None => None,
            }
        }
    }

    /// Text of the frame-rate label.
    pub fn fps_label(&self) -> (label: &String)
        ensures
            label@ == self.spec_fps_label(),
    {
        &self.fps_label
    }

    /// Number of listed devices.
    pub fn device_count(&self) -> (n: usize)
        ensures
            n == self.spec_devices().len(),
    {
        self.devices.len()
    }

    /// The device listed at `index`.
    pub fn device(&self, index: usize) -> (entry: &DeviceEntry)
        requires
            index < self.spec_devices().len(),
        ensures
            *entry == self.spec_devices()[index as int],
    {
        &self.devices[index]
    }

    /// Whether the device at `index` is checked.
    pub fn is_device_checked(&self, index: usize) -> (on: bool)
        requires
            index < self.spec_devices().len(),
        ensures
            on == self.spec_checked()[index as int],
    {
        proof {
            use_type_invariant(self);
        }
        self.checked[index]
    }
}

/// What a lookup by name finds is an entry of that name, among the first `n`,
/// and it finds one whenever such an entry exists.
pub proof fn lemma_last_named_found(entries: Seq<DeviceEntry>, name: Seq<char>, n: int)
    requires
        0 <= n <= entries.len(),
    ensures
        last_named(entries, name, n) matches Some(k) ==> 0 <= k < n && entries[k].name@ == name,
        (exists|i: int| 0 <= i < n && entries[i].name@ == name) ==> last_named(
            entries,
            name,
            n,
        ) is Some,
    decreases n,
{
    if n > 0 {
        lemma_last_named_found(entries, name, n - 1);
        if entries[n - 1].name@ != name {
            assert forall|i: int| 0 <= i < n && entries[i].name@ == name implies 0 <= i < n - 1
                && entries[i].name@ == name by {}
        }
    }
}

/// In a menu bar whose items have distinct identifiers, every item stands
/// for its own command: the four action items for their actions, and each
/// device's check item for switching to that device.
pub proof fn lemma_items_select_their_commands(bar: MenuBar)
    requires
        bar.items_distinct(),
    ensures
        bar.command_for(bar.spec_next_preset_id()) == Some(MenuCommand::NextPreset),
        bar.command_for(bar.spec_prev_preset_id()) == Some(MenuCommand::PrevPreset),
        bar.command_for(bar.spec_random_preset_id()) == Some(MenuCommand::RandomPreset),
        bar.command_for(bar.spec_next_device_id()) == Some(MenuCommand::NextInputDevice),
        forall|i: int|
            0 <= i < bar.spec_devices().len() ==> bar.command_for(
                #[trigger] bar.spec_devices()[i].item_id@,
            ) == Some(MenuCommand::SwitchAudioDevice(bar.spec_devices()[i].device)),
{
    assert forall|i: int| 0 <= i < bar.spec_devices().len() implies bar.command_for(
        #[trigger] bar.spec_devices()[i].item_id@,
    ) == Some(MenuCommand::SwitchAudioDevice(bar.spec_devices()[i].device)) by {
        let entries = bar.spec_devices();
        assert forall|j: int| 0 <= j < entries.len() && j != i implies entries[j].item_id@
            != entries[i].item_id@ by {
            assert(entries[j].item_id@ != entries[i].item_id@);
        }
        lemma_last_with_item_unique(entries, entries[i].item_id@, entries.len() as int, i);
    }
}

/// A menu bar built from distinct item identifiers has distinct item
/// identifiers, and lists each device under the identifier given for it.
pub proof fn lemma_new_keeps_items_distinct(
    bar: MenuBar,
    devices: Seq<(u32, String)>,
    ids: MenuItemIds,
)
    requires
        ids.devices.len() == devices.len(),
        bar.spec_next_preset_id() == ids.next_preset@,
        bar.spec_prev_preset_id() == ids.prev_preset@,
        bar.spec_random_preset_id() == ids.random_preset@,
        bar.spec_next_device_id() == ids.next_device@,
        bar.spec_devices().len() == devices.len(),
        forall|i: int|
            0 <= i < devices.len() ==> #[trigger] lists(bar.spec_devices()[i], ids.devices@[i], devices[i]),
        ids_distinct(ids),
    ensures
        bar.items_distinct(),
{
    assert forall|i: int| 0 <= i < bar.spec_devices().len() implies bar.spec_devices()[i].item_id@
        == ids.devices@[i]@ by {
        assert(lists(bar.spec_devices()[i], ids.devices@[i], devices[i]));
    }
    assert forall|i: int, j: int|
        0 <= i < bar.spec_devices().len() && 0 <= j < bar.spec_devices().len() && i != j
            implies #[trigger] bar.spec_devices()[i].item_id@ != #[trigger] bar.spec_devices()[j].item_id@ by {
        assert(lists(bar.spec_devices()[i], ids.devices@[i], devices[i]));
        assert(lists(bar.spec_devices()[j], ids.devices@[j], devices[j]));
        assert(ids.devices@[i]@ != ids.devices@[j]@);
    }
    assert forall|i: int| 0 <= i < bar.spec_devices().len() implies {
        let id = #[trigger] bar.spec_devices()[i].item_id@;
        &&& id != bar.spec_next_preset_id()
        &&& id != bar.spec_prev_preset_id()
        &&& id != bar.spec_random_preset_id()
        &&& id != bar.spec_next_device_id()
    } by {
        assert(lists(bar.spec_devices()[i], ids.devices@[i], devices[i]));
    }
}

proof fn lemma_last_with_item_unique(entries: Seq<DeviceEntry>, id: Seq<char>, n: int, i: int)
    requires
        0 <= i < n <= entries.len(),
        entries[i].item_id@ == id,
        forall|j: int| 0 <= j < n && j != i ==> entries[j].item_id@ != id,
    ensures
        last_with_item(entries, id, n) == Some(i),
    decreases n,
{
    if n - 1 != i {
        lemma_last_with_item_unique(entries, id, n - 1, i);
    }
}

} // verus!
