//! Names of driver objects, kept by a device under numbers that the objects carry.

use crate::error::{memory_error, memory_exhausted, DriverError};
use std::collections::HashMap;
use vstd::prelude::*;

verus! {

broadcast use vstd::std_specs::hash::group_hash_axioms;

/// What names an object: its type and its handle.
pub type ObjectKey = (i32, u64);

/// What stands for an object in a table.
pub open spec fn key_code(key: ObjectKey) -> int {
    key.0 * 0x1_0000_0000_0000_0000 + key.1
}

/// What stands for an object in a table.
fn object_code(object_type: i32, object_handle: u64) -> (code: i128)
    ensures
        code == key_code((object_type, object_handle)),
{
    object_type as i128 * 0x1_0000_0000_0000_0000i128 + object_handle as i128
}

/// An object whose name is being set.
#[derive(Debug)]
pub struct PendingName {
    code: i128,
    metadata_id: u64,
    previous_id: Option<u64>,
    previous_name: Option<String>,
}

/// An object whose name is being cleared.
#[derive(Debug)]
pub struct PendingClear {
    code: i128,
    metadata_id: u64,
}

impl PendingName {
    /// The number that the object is to carry.
    pub closed spec fn spec_metadata_id(&self) -> u64 {
        self.metadata_id
    }

    /// The number that the object is to carry.
    #[verifier::when_used_as_spec(spec_metadata_id)]
    pub fn metadata_id(&self) -> (id: u64)
        ensures
            id == self.spec_metadata_id(),
    {
        self.metadata_id
    }

    /// The name that the object had.
    pub closed spec fn previous(self) -> Option<Seq<char>> {
        match self.previous_name {
            Some(name) => Some(name@),
            None => None,
        }
    }

    /// Whether the name is that of an object.
    pub closed spec fn names_object(self, key: ObjectKey) -> bool {
        self.code == key_code(key)
    }
}

impl PendingClear {
    /// Whether the name is that of an object.
    pub closed spec fn names_object(self, key: ObjectKey) -> bool {
        self.code == key_code(key)
    }
}

/// The names of objects of a device. Where the device has no place for numbers in objects, nothing
/// is kept.
#[derive(Debug)]
pub struct ObjectNames {
    enabled: bool,
    last_id: u64,
    names: HashMap<u64, String>,
    object_metadata_ids: HashMap<i128, u64>,
}

impl ObjectNames {
    /// The names of objects.
    pub closed spec fn view(&self) -> Map<ObjectKey, Seq<char>> {
        Map::new(
            |key: ObjectKey| self.object_metadata_ids@.contains_key(key_code(key) as i128),
            |key: ObjectKey| self.names@[self.object_metadata_ids@[key_code(key) as i128]]@,
        )
    }

    /// Whether names are kept.
    pub closed spec fn is_enabled(&self) -> bool {
        self.enabled
    }

    /// The last number that was given to an object.
    pub closed spec fn last_number(&self) -> u64 {
        self.last_id
    }

    /// Each object has a number of its own, which was given out, and each number has a name.
    pub closed spec fn wf(&self) -> bool {
        &&& forall|code: i128| #[trigger]
            self.object_metadata_ids@.contains_key(code) ==> self.names@.contains_key(
                self.object_metadata_ids@[code],
            )
        &&& forall|id: u64| #[trigger] self.names@.contains_key(id) ==> id <= self.last_id
        &&& forall|a: i128, b: i128|
            a != b && #[trigger] self.object_metadata_ids@.contains_key(a)
                && #[trigger] self.object_metadata_ids@.contains_key(b)
                ==> self.object_metadata_ids@[a] != self.object_metadata_ids@[b]
    }

    /// Whether a number has a name that no object carries.
    spec fn held(&self, id: u64) -> bool {
        &&& self.names@.contains_key(id)
        &&& forall|code: i128| #[trigger]
            self.object_metadata_ids@.contains_key(code) ==> self.object_metadata_ids@[code] != id
    }

    /// Whether an object's name is being set, and has not been changed since.
    pub closed spec fn sets(&self, pending: PendingName) -> bool {
        &&& self.object_metadata_ids@.contains_key(pending.code)
        &&& self.object_metadata_ids@[pending.code] == pending.metadata_id
        &&& pending.previous_id matches Some(id) ==> id <= self.last_id && !self.names@.contains_key(
            id,
        )
        &&& pending.previous_id is Some == pending.previous_name is Some
    }

    /// Whether an object's name is being cleared, and has not been changed since.
    pub closed spec fn clears(&self, pending: PendingClear) -> bool {
        &&& !self.object_metadata_ids@.contains_key(pending.code)
        &&& self.held(pending.metadata_id)
    }

    /// The name that a cleared object had.
    pub closed spec fn cleared_name(&self, pending: PendingClear) -> Seq<char> {
        self.names@[pending.metadata_id]@
    }

    /// Creates a table without names.
    pub fn new(enabled: bool) -> (names: Self)
        ensures
            names.wf(),
            names.is_enabled() == enabled,
            names.last_number() == 0,
            names@ == Map::<ObjectKey, Seq<char>>::empty(),
    {
        let names = ObjectNames {
            enabled,
            last_id: 0,
            names: HashMap::new(),
            object_metadata_ids: HashMap::new(),
        };
        assert(names@ =~= Map::<ObjectKey, Seq<char>>::empty());
        names
    }

    /// Whether there is a number left for another name.
    pub fn has_free_number(&self) -> (free: bool)
        ensures
            free == (self.last_number() < u64::MAX),
    {
        self.last_id < u64::MAX
    }

    /// Returns the name of an object, where it has one.
    pub fn name(&self, object_type: i32, object_handle: u64) -> (name: Option<String>)
        requires
            self.wf(),
        ensures
            ({
                let key = (object_type, object_handle);
                if self.is_enabled() && object_handle != 0 && self@.contains_key(key) {
                    name matches Some(text) && text@ == self@[key]
                } else {
                    name is None
                }
            }),
    {
        if !self.enabled || object_handle == 0 {
            return None;
        }
        let code: i128 = object_code(object_type, object_handle);
        match self.object_metadata_ids.get(&code) {
            None => None,
            Some(metadata_id) => match self.names.get(metadata_id) {
                Some(name) => Some(name.clone()),
                None => None,
            },
        }
    }

    /// Starts to set the name of an object. Where names are kept, the object has to be given the
    /// number of the result, and [`Self::finish_set`] told how that went.
    pub fn begin_set(&mut self, object_type: i32, object_handle: u64, object_name: &String) -> (
    pending: Result<Option<PendingName>, DriverError>)
        requires
            old(self).wf(),
            old(self).last_number() < u64::MAX,
        ensures
            final(self).wf(),
            final(self).is_enabled() == old(self).is_enabled(),
            !old(self).is_enabled() ==> pending == Ok::<Option<PendingName>, DriverError>(None)
                && *final(self) == *old(self),
            old(self).is_enabled() && object_handle == 0 ==> pending == Err::<
                Option<PendingName>,
                DriverError,
            >(DriverError::InvalidData) && *final(self) == *old(self),
            old(self).is_enabled() && object_handle != 0 ==> {
                let key = (object_type, object_handle);
                &&& pending matches Ok(Some(pending))
                &&& pending.metadata_id() == old(self).last_number() + 1
                &&& pending.names_object(key)
                &&& pending.previous() == (if old(self)@.contains_key(key) {
                    Some(old(self)@[key])
                } else {
                    None
                })
                &&& final(self).sets(pending)
                &&& final(self).last_number() == old(self).last_number() + 1
                &&& final(self)@ == old(self)@.insert(key, object_name@)
            },
    {
        if !self.enabled {
            return Ok(None);
        }
        if object_handle == 0 {
            return Err(DriverError::InvalidData);
        }
        let ghost key = (object_type, object_handle);
        let code: i128 = object_code(object_type, object_handle);
        let metadata_id: u64 = self.last_id + 1;
        self.last_id = metadata_id;
        let previous_id = self.object_metadata_ids.insert(code, metadata_id);
        let previous_name: Option<String> = match previous_id {
            Some(id) => self.names.remove(&id),
            None => None,
        };
        let _none = self.names.insert(metadata_id, object_name.clone());
        let pending = PendingName { code, metadata_id, previous_id, previous_name };
        proof {
            let before = *old(self);
            let set = before@.insert(key, object_name@);
            assert forall|other: ObjectKey| self@.contains_key(other) == set.contains_key(other) by {}
            assert forall|other: ObjectKey| self@.contains_key(other) implies self@[other]
                == set[other] by {
                if other != key {
                    assert(key_code(other) != key_code(key));
                    let id = before.object_metadata_ids@[key_code(other) as i128];
                    assert(self.object_metadata_ids@[key_code(other) as i128] == id);
                    assert(before.object_metadata_ids@.contains_key(key_code(other) as i128));
                    assert(self.names@.contains_key(id));
                    assert(self.names@[id] == before.names@[id]);
                }
            }
            assert(self@ =~= set);
        }
        Ok(Some(pending))
    }

    /// Takes the result of giving an object its number. Where that failed, the name that the object
    /// had is back.
    pub fn finish_set(&mut self, pending: PendingName, result: i32) -> (finished: Result<
        (),
        DriverError,
    >)
        requires
            old(self).wf(),
            old(self).sets(pending),
        ensures
            final(self).wf(),
            final(self).is_enabled() == old(self).is_enabled(),
            final(self).last_number() == old(self).last_number(),
            finished == naming_outcome(result),
            finished is Ok ==> *final(self) == *old(self),
            finished is Err ==> forall|key: ObjectKey|
                pending.names_object(key) ==> #[trigger] restored(
                    old(self)@,
                    key,
                    pending.previous(),
                ) == final(self)@,
    {
        if result == crate::vk::SUCCESS {
            return Ok(());
        }
        let ghost before = *self;
        let _removed = self.names.remove(&pending.metadata_id);
        match pending.previous_id {
            Some(id) => {
                let _id = self.object_metadata_ids.insert(pending.code, id);
                if let Some(name) = pending.previous_name.as_ref() {
                    let _name = self.names.insert(id, name.clone());
                }
            },
            None => {
                let _id = self.object_metadata_ids.remove(&pending.code);
            },
        }
        proof {
            assert forall|key: ObjectKey| pending.names_object(key) implies #[trigger] restored(
                before@,
                key,
                pending.previous(),
            ) == self@ by {
                let back = restored(before@, key, pending.previous());
                assert forall|other: ObjectKey| self@.contains_key(other) == back.contains_key(
                    other,
                ) by {
                    if other != key {
                        assert(key_code(other) != key_code(key));
                    }
                }
                assert forall|other: ObjectKey| self@.contains_key(other) implies self@[other]
                    == back[other] by {
                    if other != key {
                        assert(key_code(other) != key_code(key));
                        let id = before.object_metadata_ids@[key_code(other) as i128];
                        assert(before.object_metadata_ids@.contains_key(key_code(other) as i128));
                        assert(before.names@.contains_key(id));
                        assert(id != pending.metadata_id);
                        assert(self.object_metadata_ids@[key_code(other) as i128] == id);
                        assert(self.names@[id] == before.names@[id]);
                    }
                }
                assert(self@ =~= back);
            }
        }
        Err(memory_error(result))
    }

    /// Starts to clear the name of an object. Where it has one, the object has to be given the
    /// number zero, and [`Self::finish_clear`] told how that went.
    pub fn begin_clear(&mut self, object_type: i32, object_handle: u64) -> (pending: Result<
        Option<PendingClear>,
        DriverError,
    >)
        requires
            old(self).wf(),
        ensures
            final(self).wf(),
            final(self).is_enabled() == old(self).is_enabled(),
            final(self).last_number() == old(self).last_number(),
            ({
                let key = (object_type, object_handle);
                if !old(self).is_enabled() {
                    pending == Ok::<Option<PendingClear>, DriverError>(None) && *final(self)
                        == *old(self)
                } else if object_handle == 0 {
                    pending == Err::<Option<PendingClear>, DriverError>(DriverError::InvalidData)
                        && *final(self) == *old(self)
                } else if !old(self)@.contains_key(key) {
                    pending == Ok::<Option<PendingClear>, DriverError>(None) && final(self)@
                        == old(self)@
                } else {
                    &&& pending matches Ok(Some(pending))
                    &&& pending.names_object(key)
                    &&& final(self).clears(pending)
                    &&& final(self).cleared_name(pending) == old(self)@[key]
                    &&& final(self)@ == old(self)@.remove(key)
                }
            }),
    {
        if !self.enabled {
            return Ok(None);
        }
        if object_handle == 0 {
            return Err(DriverError::InvalidData);
        }
        let ghost key = (object_type, object_handle);
        let code: i128 = object_code(object_type, object_handle);
        let previous = self.object_metadata_ids.remove(&code);
        proof {
            let before = *old(self);
            let left = before@.remove(key);
            assert forall|other: ObjectKey| self@.contains_key(other) == left.contains_key(other) by {
                if other != key {
                    assert(key_code(other) != key_code(key));
                }
            }
            assert forall|other: ObjectKey| self@.contains_key(other) implies self@[other]
                == left[other] by {
                assert(key_code(other) != key_code(key));
            }
            assert(self@ =~= left);
            if !before@.contains_key(key) {
                assert(left =~= before@);
            }
        }
        match previous {
            None => Ok(None),
            Some(metadata_id) => Ok(Some(PendingClear { code, metadata_id })),
        }
    }

    /// Takes the result of taking its number from an object. Where that failed, the name that the
    /// object had is back.
    pub fn finish_clear(&mut self, pending: PendingClear, result: i32) -> (finished: Result<
        (),
        DriverError,
    >)
        requires
            old(self).wf(),
            old(self).clears(pending),
        ensures
            final(self).wf(),
            final(self).is_enabled() == old(self).is_enabled(),
            final(self).last_number() == old(self).last_number(),
            finished == naming_outcome(result),
            finished is Ok ==> final(self)@ == old(self)@,
            finished is Err ==> forall|key: ObjectKey|
                pending.names_object(key) ==> #[trigger] restored(
                    old(self)@,
                    key,
                    Some(old(self).cleared_name(pending)),
                ) == final(self)@,
    {
        let ghost before = *self;
        if result == crate::vk::SUCCESS {
            let _name = self.names.remove(&pending.metadata_id);
            proof {
                assert forall|other: ObjectKey| self@.contains_key(other) implies self@[other]
                    == before@[other] by {
                    assert(before.object_metadata_ids@.contains_key(key_code(other) as i128));
                }
                assert(self@ =~= before@);
            }
            return Ok(());
        }
        let _id = self.object_metadata_ids.insert(pending.code, pending.metadata_id);
        proof {
            assert forall|key: ObjectKey| pending.names_object(key) implies #[trigger] restored(
                before@,
                key,
                Some(before.cleared_name(pending)),
            ) == self@ by {
                let back = restored(before@, key, Some(before.cleared_name(pending)));
                assert forall|other: ObjectKey| self@.contains_key(other) == back.contains_key(
                    other,
                ) by {
                    if other != key {
                        assert(key_code(other) != key_code(key));
                    }
                }
                assert forall|other: ObjectKey| self@.contains_key(other) implies self@[other]
                    == back[other] by {
                    if other != key {
                        assert(key_code(other) != key_code(key));
                    }
                }
                assert(self@ =~= back);
            }
        }
        Err(memory_error(result))
    }

    /// Forgets the name of an object without touching the object.
    pub fn forget(&mut self, object_type: i32, object_handle: u64)
        requires
            old(self).wf(),
        ensures
            final(self).wf(),
            final(self).is_enabled() == old(self).is_enabled(),
            final(self).last_number() == old(self).last_number(),
            final(self)@ == (if old(self).is_enabled() && object_handle != 0 {
                old(self)@.remove((object_type, object_handle))
            } else {
                old(self)@
            }),
    {
        if let Ok(Some(pending)) = self.begin_clear(object_type, object_handle) {
            let _cleared = self.finish_clear(pending, crate::vk::SUCCESS);
        } else {
            proof {
                let key = (object_type, object_handle);
                if !old(self)@.contains_key(key) {
                    assert(old(self)@.remove(key) =~= old(self)@);
                }
            }
        }
    }
}

/// Whether setting or clearing a number succeeded, or why it did not.
pub open spec fn naming_outcome(result: i32) -> Result<(), DriverError> {
    if result == crate::vk::SUCCESS {
        Ok(())
    } else if memory_exhausted(result) {
        Err(DriverError::OutOfMemory)
    } else {
        Err(DriverError::Unsupported)
    }
}

/// The names with one object's put back to what it was.
pub open spec fn restored(
    names: Map<ObjectKey, Seq<char>>,
    key: ObjectKey,
    previous: Option<Seq<char>>,
) -> Map<ObjectKey, Seq<char>> {
    match previous {
        Some(name) => names.insert(key, name),
        None => names.remove(key),
    }
}

/// Setting a name that fails changes no name: what was set is taken back.
pub proof fn failed_set_changes_nothing(
    names: Map<ObjectKey, Seq<char>>,
    key: ObjectKey,
    name: Seq<char>,
)
    ensures
        restored(
            names.insert(key, name),
            key,
            if names.contains_key(key) {
                Some(names[key])
            } else {
                None
            },
        ) == names,
{
    let previous = if names.contains_key(key) {
        Some(names[key])
    } else {
        None
    };
    assert(restored(names.insert(key, name), key, previous) =~= names);
}

/// Clearing a name that fails changes no name.
pub proof fn failed_clear_changes_nothing(names: Map<ObjectKey, Seq<char>>, key: ObjectKey)
    requires
        names.contains_key(key),
    ensures
        restored(names.remove(key), key, Some(names[key])) == names,
{
    assert(restored(names.remove(key), key, Some(names[key])) =~= names);
}

/// Objects of one type have handles of their own, and objects of different types may share a
/// handle: no two objects are one in a table.
pub proof fn objects_are_told_apart(a: ObjectKey, b: ObjectKey)
    ensures
        key_code(a) == key_code(b) <==> a.0 == b.0 && a.1 == b.1,
        i128::MIN <= key_code(a) <= i128::MAX,
{
}

/// A name is kept just where the driver reports success, which is zero. Codes of exhausted memory
/// are told from all others.
pub proof fn names_are_kept_on_success(result: i32)
    ensures
        naming_outcome(result) is Ok <==> result == 0,
        naming_outcome(result) == Err::<(), DriverError>(DriverError::OutOfMemory) <==> -2 <= result
            < 0,
        naming_outcome(result) == Err::<(), DriverError>(DriverError::Unsupported) <==> result < -2
            || result > 0,
{
}

} // verus!
