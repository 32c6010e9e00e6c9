//! Device descriptors: the roster entries a simulated session announces.
//!
//! A descriptor carries a unique identifier, a display name, and a
//! capability attribute set saying which command kinds the device accepts
//! and, for each, the independently addressable features with their step
//! ranges. Descriptors are created at roster-construction time and are
//! immutable thereafter.

use vstd::prelude::*;

verus! {

/// The kind of actuator a device feature drives.
#[derive(Clone, Copy, PartialEq, Eq, Structural, Debug)]
pub enum ActuatorKind {
    Vibrate,
    Oscillate,
    Rotate,
    Position,
}

/// One addressable feature of a device: a descriptive label, the step
/// range it accepts, and the actuator it drives.
pub struct GenericDeviceMessageAttributes {
    pub feature: String,
    pub step_lo: u32,
    pub step_hi: u32,
    pub actuator: ActuatorKind,
}

/// Mathematical model of [`GenericDeviceMessageAttributes`].
#[verifier::ext_equal]
pub struct GenericAttributesModel {
    pub feature: Seq<char>,
    pub step_lo: u32,
    pub step_hi: u32,
    pub actuator: ActuatorKind,
}

impl View for GenericDeviceMessageAttributes {
    type V = GenericAttributesModel;

    open spec fn view(&self) -> GenericAttributesModel {
        GenericAttributesModel {
            feature: self.feature@,
            step_lo: self.step_lo,
            step_hi: self.step_hi,
            actuator: self.actuator,
        }
    }
}

/// The models of a sequence of features.
pub open spec fn attr_models(s: Seq<GenericDeviceMessageAttributes>) -> Seq<GenericAttributesModel> {
    s.map_values(|g: GenericDeviceMessageAttributes| g@)
}

/// The capability attribute set of a device: for each command kind it
/// accepts, the list of features addressable by that kind. `None` means
/// the kind is not accepted at all.
pub struct DeviceMessageAttributes {
    pub scalar_cmd: Option<Vec<GenericDeviceMessageAttributes>>,
    pub linear_cmd: Option<Vec<GenericDeviceMessageAttributes>>,
    pub rotate_cmd: Option<Vec<GenericDeviceMessageAttributes>>,
}

/// Mathematical model of [`DeviceMessageAttributes`].
#[verifier::ext_equal]
pub struct DeviceAttributesModel {
    pub scalar_cmd: Option<Seq<GenericAttributesModel>>,
    pub linear_cmd: Option<Seq<GenericAttributesModel>>,
    pub rotate_cmd: Option<Seq<GenericAttributesModel>>,
}

impl View for DeviceMessageAttributes {
    type V = DeviceAttributesModel;

    open spec fn view(&self) -> DeviceAttributesModel {
        DeviceAttributesModel {
            scalar_cmd: match self.scalar_cmd {
                Some(v) => Some(attr_models(v@)),
                None => None,
            },
            linear_cmd: match self.linear_cmd {
                Some(v) => Some(attr_models(v@)),
                None => None,
            },
            rotate_cmd: match self.rotate_cmd {
                Some(v) => Some(attr_models(v@)),
                None => None,
            },
        }
    }
}

/// A device roster entry, announced to the client as a device-added
/// notification after the handshake.
pub struct DeviceAdded {
    pub index: u32,
    pub name: String,
    pub attributes: DeviceMessageAttributes,
}

/// Mathematical model of [`DeviceAdded`].
#[verifier::ext_equal]
pub struct DeviceAddedModel {
    pub index: u32,
    pub name: Seq<char>,
    pub attributes: DeviceAttributesModel,
}

impl View for DeviceAdded {
    type V = DeviceAddedModel;

    open spec fn view(&self) -> DeviceAddedModel {
        DeviceAddedModel {
            index: self.index,
            name: self.name@,
            attributes: self.attributes@,
        }
    }
}

impl Clone for GenericDeviceMessageAttributes {
    /// An exact copy: the clone has the same model as the original.
    fn clone(&self) -> (r: Self)
        ensures
            r@ == self@,
    {
        GenericDeviceMessageAttributes {
            feature: self.feature.clone(),
            step_lo: self.step_lo,
            step_hi: self.step_hi,
            actuator: self.actuator,
        }
    }
}

/// Copies a feature list element by element.
fn clone_attrs(v: &Vec<GenericDeviceMessageAttributes>) -> (r: Vec<GenericDeviceMessageAttributes>)
    ensures
        attr_models(r@) == attr_models(v@),
{
    let mut r: Vec<GenericDeviceMessageAttributes> = Vec::new();
    let mut i: usize = 0;
    while i < v.len()
        invariant
            i <= v.len(),
            attr_models(r@) == attr_models(v@.take(i as int)),
        decreases v.len() - i,
    {
        let ghost models = attr_models(r@);
        r.push(v[i].clone());
        proof {
            assert(attr_models(r@) =~= models.push(v@[i as int]@));
            assert(attr_models(v@.take(i + 1)) =~= models.push(v@[i as int]@));
        }
        i += 1;
    }
    proof {
        assert(attr_models(v@.take(v@.len() as int)) =~= attr_models(v@));
    }
    r
}

impl Clone for DeviceMessageAttributes {
    /// An exact copy: the clone has the same model as the original.
    fn clone(&self) -> (r: Self)
        ensures
            r@ == self@,
    {
        let r = DeviceMessageAttributes {
            scalar_cmd: match &self.scalar_cmd {
                Some(v) => Some(clone_attrs(v)),
                None => None,
            },
            linear_cmd: match &self.linear_cmd {
                Some(v) => Some(clone_attrs(v)),
                None => None,
            },
            rotate_cmd: match &self.rotate_cmd {
                Some(v) => Some(clone_attrs(v)),
                None => None,
            },
        };
        proof {
            assert(r@ =~= self@);
        }
        r
    }
}

impl Clone for DeviceAdded {
    /// An exact copy: the clone has the same model as the original.
    fn clone(&self) -> (r: Self)
        ensures
            r@ == self@,
    {
        DeviceAdded {
            index: self.index,
            name: self.name.clone(),
            attributes: self.attributes.clone(),
        }
    }
}

/// A roster entry for a device whose whole capability set is `count`
/// scalar features driving `actuator`, each accepting steps 0 to 10.
pub fn scalars(id: u32, name: &str, actuator: ActuatorKind, count: u32) -> (d: DeviceAdded)
    ensures
        d@.index == id,
        d@.name == name@,
        d@.attributes.scalar_cmd matches Some(s) && s.len() == count && forall|i: int|
            0 <= i < count ==> (#[trigger] s[i]) == (GenericAttributesModel {
                feature: name@,
                step_lo: 0,
                step_hi: 10,
                actuator,
            }),
        d@.attributes.linear_cmd is None,
        d@.attributes.rotate_cmd is None,
{
    let mut feats: Vec<GenericDeviceMessageAttributes> = Vec::new();
    let mut i: u32 = 0;
    while i < count
        invariant
            i <= count,
            feats@.len() == i,
            forall|j: int| 0 <= j < i ==> (#[trigger] feats@[j])@ == (GenericAttributesModel {
                feature: name@,
                step_lo: 0,
                step_hi: 10,
                actuator,
            }),
        decreases count - i,
    {
        feats.push(
            GenericDeviceMessageAttributes {
                feature: name.to_owned(),
                step_lo: 0,
                step_hi: 10,
                actuator,
            },
        );
        i += 1;
    }
    let d = DeviceAdded {
        index: id,
        name: name.to_owned(),
        attributes: DeviceMessageAttributes {
            scalar_cmd: Some(feats),
            linear_cmd: None,
            rotate_cmd: None,
        },
    };
    d
}

/// A roster entry for a device with exactly one scalar feature driving
/// `actuator`.
pub fn scalar(id: u32, name: &str, actuator: ActuatorKind) -> (d: DeviceAdded)
    ensures
        d@.index == id,
        d@.name == name@,
        d@.attributes.scalar_cmd matches Some(s) && s =~= seq![
            GenericAttributesModel { feature: name@, step_lo: 0, step_hi: 10, actuator },
        ],
        d@.attributes.linear_cmd is None,
        d@.attributes.rotate_cmd is None,
{
    scalars(id, name, actuator, 1)
}

/// A roster entry for a vibrate-only device with one actuator.
pub fn vibrator(id: u32, name: &str) -> (d: DeviceAdded)
    ensures
        d@.index == id,
        d@.name == name@,
        d@.attributes.scalar_cmd matches Some(s) && s =~= seq![
            GenericAttributesModel {
                feature: name@,
                step_lo: 0,
                step_hi: 10,
                actuator: ActuatorKind::Vibrate,
            },
        ],
        d@.attributes.linear_cmd is None,
        d@.attributes.rotate_cmd is None,
{
    scalar(id, name, ActuatorKind::Vibrate)
}

/// A roster entry for a linear-only device with one position actuator.
pub fn linear(id: u32, name: &str) -> (d: DeviceAdded)
    ensures
        d@.index == id,
        d@.name == name@,
        d@.attributes.linear_cmd matches Some(s) && s =~= seq![
            GenericAttributesModel {
                feature: name@,
                step_lo: 0,
                step_hi: 10,
                actuator: ActuatorKind::Position,
            },
        ],
        d@.attributes.scalar_cmd is None,
        d@.attributes.rotate_cmd is None,
{
    let mut feats: Vec<GenericDeviceMessageAttributes> = Vec::new();
    feats.push(
        GenericDeviceMessageAttributes {
            feature: name.to_owned(),
            step_lo: 0,
            step_hi: 10,
            actuator: ActuatorKind::Position,
        },
    );
    DeviceAdded {
        index: id,
        name: name.to_owned(),
        attributes: DeviceMessageAttributes {
            scalar_cmd: None,
            linear_cmd: Some(feats),
            rotate_cmd: None,
        },
    }
}

/// A roster entry for a rotate-only device with one motor.
pub fn rotate(id: u32, name: &str) -> (d: DeviceAdded)
    ensures
        d@.index == id,
        d@.name == name@,
        d@.attributes.rotate_cmd matches Some(s) && s =~= seq![
            GenericAttributesModel {
                feature: name@,
                step_lo: 0,
                step_hi: 10,
                actuator: ActuatorKind::Rotate,
            },
        ],
        d@.attributes.scalar_cmd is None,
        d@.attributes.linear_cmd is None,
{
    let mut feats: Vec<GenericDeviceMessageAttributes> = Vec::new();
    feats.push(
        GenericDeviceMessageAttributes {
            feature: name.to_owned(),
            step_lo: 0,
            step_hi: 10,
            actuator: ActuatorKind::Rotate,
        },
    );
    DeviceAdded {
        index: id,
        name: name.to_owned(),
        attributes: DeviceMessageAttributes {
            scalar_cmd: None,
            linear_cmd: None,
            rotate_cmd: Some(feats),
        },
    }
}

} // verus!
