//! Machines as plain records.
//!
//! A machine's status is a string validated against a closed set; the
//! spec-sheet fields are free text and stay as given.

use vstd::prelude::*;
use crate::users::clone_opt_string;

verus! {

/// A machine on the shop floor.
pub struct Machine {
    pub id: i64,
    pub name: String,
    pub model: String,
    pub serial_number: Option<String>,
    pub purchase_date: Option<String>,
    pub status: String,
    pub location: Option<String>,
    pub capacity: Option<String>,
    pub power_consumption: Option<String>,
    pub dimensions: Option<String>,
    pub weight: Option<String>,
    pub max_rpm: Option<String>,
    pub axis_travel: Option<String>,
    pub created_at: i64,
    pub updated_at: i64,
}

impl Clone for Machine {
    fn clone(&self) -> (r: Self)
        ensures
            r == *self,
    {
        Machine {
            id: self.id,
            name: self.name.clone(),
            model: self.model.clone(),
            serial_number: clone_opt_string(&self.serial_number),
            purchase_date: clone_opt_string(&self.purchase_date),
            status: self.status.clone(),
            location: clone_opt_string(&self.location),
            capacity: clone_opt_string(&self.capacity),
            power_consumption: clone_opt_string(&self.power_consumption),
            dimensions: clone_opt_string(&self.dimensions),
            weight: clone_opt_string(&self.weight),
            max_rpm: clone_opt_string(&self.max_rpm),
            axis_travel: clone_opt_string(&self.axis_travel),
            created_at: self.created_at,
            updated_at: self.updated_at,
        }
    }
}

/// The free-text spec-sheet fields of a machine, grouped.
pub struct MachineSpecs {
    pub power_consumption: Option<String>,
    pub dimensions: Option<String>,
    pub weight: Option<String>,
    pub max_rpm: Option<String>,
    pub axis_travel: Option<String>,
}

/// Input for creating a machine.
pub struct CreateMachineInput {
    pub name: String,
    pub model: String,
    pub serial_number: Option<String>,
    pub purchase_date: Option<String>,
    pub status: String,
    pub location: Option<String>,
    pub capacity: Option<String>,
    pub power_consumption: Option<String>,
    pub dimensions: Option<String>,
    pub weight: Option<String>,
    pub max_rpm: Option<String>,
    pub axis_travel: Option<String>,
}

/// Input for updating a machine; absent fields stay as they are.
pub struct UpdateMachineInput {
    pub name: Option<String>,
    pub model: Option<String>,
    pub serial_number: Option<String>,
    pub purchase_date: Option<String>,
    pub status: Option<String>,
    pub location: Option<String>,
    pub capacity: Option<String>,
    pub power_consumption: Option<String>,
    pub dimensions: Option<String>,
    pub weight: Option<String>,
    pub max_rpm: Option<String>,
    pub axis_travel: Option<String>,
}

/// Whether an update carries at least one field.
pub open spec fn machine_update_has_field(input: UpdateMachineInput) -> bool {
    ||| input.name is Some
    ||| input.model is Some
    ||| input.serial_number is Some
    ||| input.purchase_date is Some
    ||| input.status is Some
    ||| input.location is Some
    ||| input.capacity is Some
    ||| input.power_consumption is Some
    ||| input.dimensions is Some
    ||| input.weight is Some
    ||| input.max_rpm is Some
    ||| input.axis_travel is Some
}

/// What a machine looks like after an update: given fields replace their
/// old values, absent fields stay, and the update stamp is refreshed.
pub open spec fn updated_machine(a: Machine, input: UpdateMachineInput, now: i64) -> Machine {
    Machine {
        name: if input.name is Some {
            input.name->0
        } else {
            a.name
        },
        model: if input.model is Some {
            input.model->0
        } else {
            a.model
        },
        serial_number: if input.serial_number is Some {
            input.serial_number
        } else {
            a.serial_number
        },
        purchase_date: if input.purchase_date is Some {
            input.purchase_date
        } else {
            a.purchase_date
        },
        status: if input.status is Some {
            input.status->0
        } else {
            a.status
        },
        location: if input.location is Some {
            input.location
        } else {
            a.location
        },
        capacity: if input.capacity is Some {
            input.capacity
        } else {
            a.capacity
        },
        power_consumption: if input.power_consumption is Some {
            input.power_consumption
        } else {
            a.power_consumption
        },
        dimensions: if input.dimensions is Some {
            input.dimensions
        } else {
            a.dimensions
        },
        weight: if input.weight is Some {
            input.weight
        } else {
            a.weight
        },
        max_rpm: if input.max_rpm is Some {
            input.max_rpm
        } else {
            a.max_rpm
        },
        axis_travel: if input.axis_travel is Some {
            input.axis_travel
        } else {
            a.axis_travel
        },
        updated_at: now,
        ..a
    }
}

/// The name order on machines: lexicographic by code point.
pub open spec fn machine_le(a: Machine, b: Machine) -> bool {
    crate::schedule::lex_le(a.name@, b.name@)
}

/// Whether adjacent machines stand in name order.
pub open spec fn machines_sorted(s: Seq<Machine>) -> bool {
    forall|i: int| 0 <= i < s.len() - 1 ==> machine_le(#[trigger] s[i], s[i + 1])
}

/// The ids of a machine sequence, in order.
pub open spec fn machine_ids(ms: Seq<Machine>) -> Seq<i64> {
    ms.map_values(|m: Machine| m.id)
}

/// Sorts machines into name order; keeps exactly the given machines.
pub fn sort_machines(v: Vec<Machine>) -> (r: Vec<Machine>)
    ensures
        r@.to_multiset() == v@.to_multiset(),
        machine_ids(r@).to_multiset() == machine_ids(v@).to_multiset(),
        machines_sorted(r@),
        r@.len() == v@.len(),
{
    broadcast use vstd::seq_lib::group_to_multiset_ensures;

    let mut src = v;
    let mut out: Vec<Machine> = Vec::new();
    proof {
        assert(out@.to_multiset().add(src@.to_multiset()) =~= v@.to_multiset());
        assert(machine_ids(out@).to_multiset().add(machine_ids(src@).to_multiset())
            =~= machine_ids(v@).to_multiset());
    }
    while src.len() > 0
        invariant
            out@.to_multiset().add(src@.to_multiset()) == v@.to_multiset(),
            machine_ids(out@).to_multiset().add(machine_ids(src@).to_multiset()) == machine_ids(
                v@,
            ).to_multiset(),
            out@.len() + src@.len() == v@.len(),
            machines_sorted(out@),
            forall|i: int, j: int|
                0 <= i < out@.len() && 0 <= j < src@.len() ==> machine_le(
                    #[trigger] out@[i],
                    #[trigger] src@[j],
                ),
        decreases src.len(),
    {
        broadcast use vstd::seq_lib::group_to_multiset_ensures;

        let mut min_i: usize = 0;
        let mut k: usize = 1;
        proof {
            crate::schedule::lemma_lex_le_total(src@[0].name@, src@[0].name@);
        }
        while k < src.len()
            invariant
                min_i < k,
                1 <= k <= src@.len(),
                forall|j: int| 0 <= j < k ==> machine_le(src@[min_i as int], #[trigger] src@[j]),
            decreases src@.len() - k,
        {
            if !crate::schedule::lex_le_exec(src[min_i].name.as_str(), src[k].name.as_str()) {
                proof {
                    crate::schedule::lemma_lex_le_total(
                        src@[min_i as int].name@,
                        src@[k as int].name@,
                    );
                    assert forall|j: int| 0 <= j < k + 1 implies machine_le(
                        src@[k as int],
                        #[trigger] src@[j],
                    ) by {
                        if j < k {
                            crate::schedule::lemma_lex_le_trans(
                                src@[k as int].name@,
                                src@[min_i as int].name@,
                                src@[j].name@,
                            );
                        } else {
                            crate::schedule::lemma_lex_le_total(
                                src@[k as int].name@,
                                src@[k as int].name@,
                            );
                        }
                    }
                }
                min_i = k;
            }
            k += 1;
        }
        let ghost old_out = out@;
        let ghost old_src = src@;
        let ghost e_spec = src@[min_i as int];
        let e = src.remove(min_i);
        out.push(e);
        proof {
            assert(old_src.contains(e_spec));
            assert(old_src.to_multiset().count(e_spec) > 0);
            assert(out@.to_multiset() =~= old_out.to_multiset().insert(e_spec));
            assert(src@.to_multiset() =~= old_src.to_multiset().remove(e_spec));
            assert(out@.to_multiset().add(src@.to_multiset()) =~= old_out.to_multiset().add(
                old_src.to_multiset(),
            ));
            assert(machine_ids(out@) =~= machine_ids(old_out).push(e_spec.id));
            assert(machine_ids(src@) =~= machine_ids(old_src).remove(min_i as int));
            assert(machine_ids(old_src)[min_i as int] == e_spec.id);
            assert(machine_ids(old_src).contains(machine_ids(old_src)[min_i as int]));
            assert(machine_ids(out@).to_multiset() =~= machine_ids(old_out).to_multiset().insert(
                e_spec.id,
            ));
            assert(machine_ids(src@).to_multiset() =~= machine_ids(
                old_src,
            ).to_multiset().remove(e_spec.id));
            assert(machine_ids(out@).to_multiset().add(machine_ids(src@).to_multiset())
                =~= machine_ids(old_out).to_multiset().add(machine_ids(old_src).to_multiset()));
            assert forall|i: int, j: int|
                0 <= i < out@.len() && 0 <= j < src@.len() implies machine_le(
                #[trigger] out@[i],
                #[trigger] src@[j],
            ) by {
                if i < old_out.len() {
                    assert(out@[i] == old_out[i]);
                } else {
                    assert(out@[i] == e_spec);
                }
                if j < min_i {
                    assert(src@[j] == old_src[j]);
                } else {
                    assert(src@[j] == old_src[j + 1]);
                }
            }
            assert(machines_sorted(out@));
        }
    }
    out
}

/// Copies a machine list, value for value.
pub fn clone_machines(v: &Vec<Machine>) -> (r: Vec<Machine>)
    ensures
        r@ == v@,
{
    let mut out: Vec<Machine> = Vec::new();
    let n = v.len();
    let mut i: usize = 0;
    while i < n
        invariant
            n == v@.len(),
            i <= n,
            out@ == v@.subrange(0, i as int),
        decreases n - i,
    {
        out.push(v[i].clone());
        proof {
            assert(out@ =~= v@.subrange(0, i as int + 1));
        }
        i += 1;
    }
    proof {
        assert(v@.subrange(0, n as int) =~= v@);
    }
    out
}

/// Whether some machine of the sequence carries both the id and the name.
pub open spec fn machine_listed(ms: Seq<Machine>, mid: i64, name: Seq<char>) -> bool {
    exists|m: int| 0 <= m < ms.len() && (#[trigger] ms[m]).id == mid && ms[m].name@ == name
}

/// Whether a machine status string is one of the closed set.
pub open spec fn is_machine_status(s: Seq<char>) -> bool {
    s == "active"@ || s == "idle"@ || s == "maintenance"@ || s == "error"@
}

/// Validates a machine status string against the closed set.
pub fn check_machine_status(s: &str) -> (r: bool)
    ensures
        r == is_machine_status(s@),
{
    let owned = s.to_owned();
    owned == String::from_str("active") || owned == String::from_str("idle") || owned
        == String::from_str("maintenance") || owned == String::from_str("error")
}

} // verus!
