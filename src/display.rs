use vstd::prelude::*;

use crate::clamped::ClampedValue;
use crate::control::ControlMethod;
use crate::error::Error;
use crate::scale::{level_down, level_up, BrightnessScale};

verus! {

/// One managed display: its name, its scale, and how its brightness and its
/// power are driven.
#[derive(Debug)]
pub struct Display {
    dpms_control: Option<ControlMethod>,
    brightness_control: Option<ControlMethod>,
    scale: BrightnessScale,
    name: Vec<u8>,
}

/// `s` is the text that a device file holds: a digit and a newline.
pub open spec fn is_state_text(s: Seq<u8>, digit: u8) -> bool {
    s.len() == 2 && s[0] == digit && s[1] == 10
}

impl Display {
    pub closed spec fn spec_name(&self) -> Seq<u8> {
        self.name@
    }

    pub closed spec fn spec_scale(&self) -> BrightnessScale {
        self.scale
    }

    pub closed spec fn spec_dpms_control(&self) -> Option<ControlMethod> {
        self.dpms_control
    }

    pub closed spec fn spec_brightness_control(&self) -> Option<ControlMethod> {
        self.brightness_control
    }

    /// The same display with its scale at level `l`.
    pub closed spec fn with_level(self, l: i8) -> Display {
        Display { scale: self.scale.with_level(l), ..self }
    }

    pub open spec fn spec_level(&self) -> i8 {
        self.spec_scale().spec_level()
    }

    pub open spec fn spec_brightness(&self) -> ClampedValue<usize> {
        self.spec_scale().spec_brightness()
    }

    /// Power goes through a device file, whose text tells the state.
    pub open spec fn has_power_state(&self) -> bool {
        self.spec_dpms_control() matches Some(ControlMethod::SysFS(_))
    }

    pub fn new(
        name: Vec<u8>,
        brightness_control: Option<ControlMethod>,
        dpms_control: Option<ControlMethod>,
        scale: BrightnessScale,
    ) -> (r: Self)
        ensures
            r.spec_name() == name@,
            r.spec_brightness_control() == brightness_control,
            r.spec_dpms_control() == dpms_control,
            r.spec_scale() == scale,
    {
        Display { dpms_control, brightness_control, scale, name }
    }

    pub fn name(&self) -> (r: &Vec<u8>)
        ensures
            r@ == self.spec_name(),
    {
        &self.name
    }

    pub fn brightness_control(&self) -> (r: &Option<ControlMethod>)
        ensures
            *r == self.spec_brightness_control(),
    {
        &self.brightness_control
    }

    pub fn dpms_control(&self) -> (r: &Option<ControlMethod>)
        ensures
            *r == self.spec_dpms_control(),
    {
        &self.dpms_control
    }

    /// The device file whose text tells the power state, if power goes
    /// through one.
    pub fn power_state_path(&self) -> (r: Option<&Vec<u8>>)
        ensures
            match self.spec_dpms_control() {
                Some(ControlMethod::SysFS(p)) => r == Some(&p),
                _ => r is None,
            },
    {
        match &self.dpms_control {
            Some(ControlMethod::SysFS(p)) => Some(p),
            _ => None,
        }
    }

    /// Whether the power-state text `state` (read from the device file) says
    /// on, which is `0` and a newline; `NoBacklightStatus` when power does
    /// not go through a device file.
    pub fn is_on(&self, state: &[u8]) -> (r: Result<bool, Error>)
        ensures
            !self.has_power_state() <==> r == Err::<bool, Error>(Error::NoBacklightStatus),
            self.has_power_state() ==> r == Ok::<bool, Error>(is_state_text(state@, 48)),
    {
        match &self.dpms_control {
            Some(ControlMethod::SysFS(_)) => Ok(state.len() == 2 && state[0] == 48 && state[1] == 10),
            _ => Err(Error::NoBacklightStatus),
        }
    }

    /// Whether the power-state text `state` says off, which is `4` and a
    /// newline; `NoBacklightStatus` when power does not go through a device
    /// file.
    pub fn is_off(&self, state: &[u8]) -> (r: Result<bool, Error>)
        ensures
            !self.has_power_state() <==> r == Err::<bool, Error>(Error::NoBacklightStatus),
            self.has_power_state() ==> r == Ok::<bool, Error>(is_state_text(state@, 52)),
    {
        match &self.dpms_control {
            Some(ControlMethod::SysFS(_)) => Ok(state.len() == 2 && state[0] == 52 && state[1] == 10),
            _ => Err(Error::NoBacklightStatus),
        }
    }

    pub fn get_brightness(&self) -> (r: ClampedValue<usize>)
        ensures
            r == self.spec_brightness(),
    {
        self.scale.get_brightness()
    }

    pub fn set_brightness_level(&mut self, level: i8) -> (r: ClampedValue<usize>)
        ensures
            *final(self) == old(self).with_level(level),
            r == final(self).spec_brightness(),
    {
        self.scale.set_level(level)
    }

    pub fn brightness_up(&mut self) -> (r: ClampedValue<usize>)
        ensures
            *final(self) == old(self).with_level(level_up(old(self).spec_level())),
            r == final(self).spec_brightness(),
    {
        self.scale.up()
    }

    pub fn brightness_down(&mut self) -> (r: ClampedValue<usize>)
        ensures
            *final(self) == old(self).with_level(level_down(old(self).spec_level())),
            r == final(self).spec_brightness(),
    {
        self.scale.down()
    }
}

} // verus!
