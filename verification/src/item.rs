//! Item stacks and their typed data components. A stack is an item kind, a
//! count, and optional added components; removing a component leaves a
//! removal marker, as the wire format distinguishes "absent" from
//! "explicitly removed".
use vstd::prelude::*;

use crate::values::Id;

verus! {

pub struct ItemStack {
    kind: Id,
    count: u16,
    max_damage: Option<u32>,
    damage: Option<u32>,
    item_model: Option<Id>,
    removed_max_damage: bool,
    removed_damage: bool,
    removed_item_model: bool,
}

impl ItemStack {
    pub closed spec fn kind_view(&self) -> (Seq<char>, Seq<char>) {
        self.kind@
    }

    pub closed spec fn count_view(&self) -> u16 {
        self.count
    }

    pub closed spec fn max_damage_view(&self) -> Option<u32> {
        self.max_damage
    }

    pub closed spec fn damage_view(&self) -> Option<u32> {
        self.damage
    }

    pub closed spec fn item_model_view(&self) -> Option<(Seq<char>, Seq<char>)> {
        match self.item_model {
            Some(m) => Some(m@),
            None => None,
        }
    }

    pub fn new(kind: Id) -> (r: ItemStack)
        ensures
            r.kind_view() == kind@,
            r.count_view() == 1u16,
            r.max_damage_view() is None,
            r.damage_view() is None,
            r.item_model_view() is None,
    {
        ItemStack {
            kind,
            count: 1,
            max_damage: None,
            damage: None,
            item_model: None,
            removed_max_damage: false,
            removed_damage: false,
            removed_item_model: false,
        }
    }

    /// The empty stack: one "air" of count zero.
    pub fn air() -> (r: ItemStack)
        ensures
            r.kind_view() == ("minecraft"@, "air"@),
            r.count_view() == 0u16,
            r.max_damage_view() is None,
            r.damage_view() is None,
            r.item_model_view() is None,
    {
        let mut s = ItemStack::new(Id::constant("minecraft", "air"));
        s.count = 0;
        s
    }

    /// The item kind, as a value.
    pub closed spec fn spec_kind(&self) -> Id {
        self.kind
    }

    pub fn kind(&self) -> (r: Id)
        ensures
            r == self.spec_kind(),
            r@ == self.kind_view(),
    {
        self.kind.clone()
    }

    pub fn count(&self) -> (r: u16)
        ensures
            r == self.count_view(),
    {
        self.count
    }
}

impl Clone for ItemStack {
    fn clone(&self) -> (r: ItemStack)
        ensures
            r == *self,
    {
        ItemStack {
            kind: self.kind.clone(),
            count: self.count,
            max_damage: self.max_damage,
            damage: self.damage,
            item_model: match &self.item_model {
                Some(m) => Some(m.clone()),
                None => None,
            },
            removed_max_damage: self.removed_max_damage,
            removed_damage: self.removed_damage,
            removed_item_model: self.removed_item_model,
        }
    }
}

/// The registry of item component types.
pub struct ItemComponents;

/// The stack's count.
pub struct ItemCountComponentType;

impl ItemCountComponentType {
    pub fn insert_component(&self, holder: &mut ItemStack, value: u16)
        ensures
            final(holder).count_view() == value,
            final(holder).kind_view() == old(holder).kind_view(),
            final(holder).max_damage_view() == old(holder).max_damage_view(),
            final(holder).damage_view() == old(holder).damage_view(),
            final(holder).item_model_view() == old(holder).item_model_view(),
    {
        holder.count = value;
    }

    pub fn get_component(&self, holder: &ItemStack) -> (r: Option<u16>)
        ensures
            r == Some(holder.count_view()),
    {
        Some(holder.count)
    }

    pub fn unset_component(&self, holder: &mut ItemStack)
        ensures
            *final(holder) == *old(holder),
    {
    }
}

/// The maximum-damage component.
pub struct MaxDamageComponentType;

impl MaxDamageComponentType {
    pub fn insert_component(&self, holder: &mut ItemStack, value: u32)
        ensures
            final(holder).max_damage_view() == Some(value),
            final(holder).kind_view() == old(holder).kind_view(),
            final(holder).count_view() == old(holder).count_view(),
            final(holder).damage_view() == old(holder).damage_view(),
            final(holder).item_model_view() == old(holder).item_model_view(),
    {
        holder.max_damage = Some(value);
        holder.removed_max_damage = false;
    }

    pub fn get_component(&self, holder: &ItemStack) -> (r: Option<u32>)
        ensures
            r == holder.max_damage_view(),
    {
        holder.max_damage
    }

    pub fn unset_component(&self, holder: &mut ItemStack)
        ensures
            final(holder).max_damage_view() is None,
            final(holder).kind_view() == old(holder).kind_view(),
            final(holder).count_view() == old(holder).count_view(),
            final(holder).damage_view() == old(holder).damage_view(),
            final(holder).item_model_view() == old(holder).item_model_view(),
    {
        holder.removed_max_damage = true;
        holder.max_damage = None;
    }
}

/// The damage component.
pub struct DamageComponentType;

impl DamageComponentType {
    pub fn insert_component(&self, holder: &mut ItemStack, value: u32)
        ensures
            final(holder).damage_view() == Some(value),
            final(holder).kind_view() == old(holder).kind_view(),
            final(holder).count_view() == old(holder).count_view(),
            final(holder).max_damage_view() == old(holder).max_damage_view(),
            final(holder).item_model_view() == old(holder).item_model_view(),
    {
        holder.damage = Some(value);
        holder.removed_damage = false;
    }

    pub fn get_component(&self, holder: &ItemStack) -> (r: Option<u32>)
        ensures
            r == holder.damage_view(),
    {
        holder.damage
    }

    pub fn unset_component(&self, holder: &mut ItemStack)
        ensures
            final(holder).damage_view() is None,
            final(holder).kind_view() == old(holder).kind_view(),
            final(holder).count_view() == old(holder).count_view(),
            final(holder).max_damage_view() == old(holder).max_damage_view(),
            final(holder).item_model_view() == old(holder).item_model_view(),
    {
        holder.removed_damage = true;
        holder.damage = None;
    }
}

/// The item-model component: the texture key the client renders with.
pub struct ItemModelComponentType;

impl ItemModelComponentType {
    pub fn insert_component(&self, holder: &mut ItemStack, value: Id)
        ensures
            final(holder).item_model_view() == Some(value@),
            final(holder).kind_view() == old(holder).kind_view(),
            final(holder).count_view() == old(holder).count_view(),
            final(holder).max_damage_view() == old(holder).max_damage_view(),
            final(holder).damage_view() == old(holder).damage_view(),
    {
        holder.item_model = Some(value);
        holder.removed_item_model = false;
    }

    pub fn get_component(&self, holder: &ItemStack) -> (r: Option<Id>)
        ensures
            match r {
                Some(m) => holder.item_model_view() == Some(m@),
                None => holder.item_model_view() is None,
            },
    {
        match &holder.item_model {
            Some(m) => Some(m.clone()),
            None => None,
        }
    }

    pub fn unset_component(&self, holder: &mut ItemStack)
        ensures
            final(holder).item_model_view() is None,
            final(holder).kind_view() == old(holder).kind_view(),
            final(holder).count_view() == old(holder).count_view(),
            final(holder).max_damage_view() == old(holder).max_damage_view(),
            final(holder).damage_view() == old(holder).damage_view(),
    {
        holder.removed_item_model = true;
        holder.item_model = None;
    }
}

} // verus!
