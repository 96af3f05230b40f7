//! Descriptions of the devices that the native library lists.
use vstd::prelude::*;

use crate::sys;

verus! {

/// Name, vendor, model and type of a device, in one buffer.
#[derive(Clone, Debug)]
pub struct DeviceDescription {
    buf: Vec<u8>,
    name_end: usize,
    vendor_end: usize,
    model_end: usize,
}

impl DeviceDescription {
    /// The four strings lie one after the other in the buffer.
    pub closed spec fn wf(&self) -> bool {
        self.name_end <= self.vendor_end <= self.model_end <= self.buf@.len()
    }

    /// The device name, with its NUL.
    pub closed spec fn spec_name(&self) -> Seq<u8> {
        self.buf@.subrange(0, self.name_end as int)
    }

    /// The vendor, with its NUL.
    pub closed spec fn spec_vendor(&self) -> Seq<u8> {
        self.buf@.subrange(self.name_end as int, self.vendor_end as int)
    }

    /// The model, with its NUL.
    pub closed spec fn spec_model(&self) -> Seq<u8> {
        self.buf@.subrange(self.vendor_end as int, self.model_end as int)
    }

    /// The device type, with its NUL.
    pub closed spec fn spec_type(&self) -> Seq<u8> {
        self.buf@.subrange(self.model_end as int, self.buf@.len() as int)
    }

    /// Whether this description is that of `d`.
    pub open spec fn describes(&self, d: sys::Device) -> bool {
        &&& self.wf()
        &&& self.spec_name() == d.name@
        &&& self.spec_vendor() == d.vendor@
        &&& self.spec_model() == d.model@
        &&& self.spec_type() == d.type_@
    }

    /// An empty description, ready to be filled.
    pub fn empty() -> (r: Self)
        ensures
            r.wf(),
    {
        DeviceDescription { buf: Vec::new(), name_end: 0, vendor_end: 0, model_end: 0 }
    }

    pub fn name(&self) -> (r: &[u8])
        requires
            self.wf(),
        ensures
            r@ == self.spec_name(),
    {
        vstd::slice::slice_subrange(self.buf.as_slice(), 0, self.name_end)
    }

    pub fn vendor(&self) -> (r: &[u8])
        requires
            self.wf(),
        ensures
            r@ == self.spec_vendor(),
    {
        vstd::slice::slice_subrange(self.buf.as_slice(), self.name_end, self.vendor_end)
    }

    pub fn model(&self) -> (r: &[u8])
        requires
            self.wf(),
        ensures
            r@ == self.spec_model(),
    {
        vstd::slice::slice_subrange(self.buf.as_slice(), self.vendor_end, self.model_end)
    }

    pub fn type_(&self) -> (r: &[u8])
        requires
            self.wf(),
        ensures
            r@ == self.spec_type(),
    {
        vstd::slice::slice_subrange(self.buf.as_slice(), self.model_end, self.buf.len())
    }

    /// The description of `value`.
    pub fn from_sys(value: &sys::Device) -> (r: Self)
        requires
            value.name@.len() + value.vendor@.len() + value.model@.len() + value.type_@.len()
                <= usize::MAX,
        ensures
            r.describes(*value),
    {
        let mut res = DeviceDescription::empty();
        DeviceDescription::from_sys_into(&mut res, value);
        res
    }

    /// Overwrites `into` with the description of `value`, reusing its buffer.
    fn from_sys_into(into: &mut Self, value: &sys::Device)
        requires
            value.name@.len() + value.vendor@.len() + value.model@.len() + value.type_@.len()
                <= usize::MAX,
        ensures
            final(into).describes(*value),
    {
        into.name_end = value.name.len();
        into.vendor_end = into.name_end + value.vendor.len();
        into.model_end = into.vendor_end + value.model.len();
        into.buf.clear();
        append_all(&mut into.buf, &value.name);
        append_all(&mut into.buf, &value.vendor);
        append_all(&mut into.buf, &value.model);
        append_all(&mut into.buf, &value.type_);
        proof {
            let b = into.buf@;
            assert(b =~= value.name@ + value.vendor@ + value.model@ + value.type_@);
            assert(b.subrange(0, into.name_end as int) =~= value.name@);
            assert(b.subrange(into.name_end as int, into.vendor_end as int) =~= value.vendor@);
            assert(b.subrange(into.vendor_end as int, into.model_end as int) =~= value.model@);
            assert(b.subrange(into.model_end as int, b.len() as int) =~= value.type_@);
        }
    }
}

/// Appends `data` to `buf`.
fn append_all(buf: &mut Vec<u8>, data: &Vec<u8>)
    ensures
        final(buf)@ == old(buf)@ + data@,
{
    let mut i: usize = 0;
    while i < data.len()
        invariant
            0 <= i <= data@.len(),
            buf@ == old(buf)@ + data@.subrange(0, i as int),
        decreases data@.len() - i,
    {
        buf.push(data[i]);
        i += 1;
        proof {
            assert(data@.subrange(0, i as int) =~= data@.subrange(0, i - 1) + seq![data@[i - 1]]);
        }
    }
    proof {
        assert(data@.subrange(0, data@.len() as int) =~= data@);
    }
}

/// Whether the four strings of a device record fit in one buffer together.
pub open spec fn fits(d: sys::Device) -> bool {
    d.name@.len() + d.vendor@.len() + d.model@.len() + d.type_@.len() <= usize::MAX
}

/// The devices of one listing, handed out in order.
#[derive(Clone, Debug)]
pub struct DeviceDescriptionIter {
    devices: Vec<sys::Device>,
    pos: usize,
}

impl DeviceDescriptionIter {
    /// The devices not handed out yet.
    pub closed spec fn spec_remaining(&self) -> Seq<sys::Device> {
        self.devices@.subrange(self.pos as int, self.devices@.len() as int)
    }

    pub closed spec fn wf(&self) -> bool {
        &&& self.pos <= self.devices@.len()
        &&& forall|i: int| 0 <= i < self.devices@.len() ==> fits(#[trigger] self.devices@[i])
    }

    /// A listing of `devices`.
    pub fn new(devices: Vec<sys::Device>) -> (r: Self)
        requires
            forall|i: int| 0 <= i < devices@.len() ==> fits(#[trigger] devices@[i]),
        ensures
            r.wf(),
            r.spec_remaining() == devices@,
    {
        let r = DeviceDescriptionIter { devices, pos: 0 };
        proof {
            assert(r.devices@.subrange(0, r.devices@.len() as int) =~= r.devices@);
        }
        r
    }

    /// How many devices are left.
    pub fn len(&self) -> (r: usize)
        requires
            self.wf(),
        ensures
            r == self.spec_remaining().len(),
    {
        self.devices.len() - self.pos
    }

    pub fn is_empty(&self) -> (r: bool)
        requires
            self.wf(),
        ensures
            r == (self.spec_remaining().len() == 0),
    {
        self.pos == self.devices.len()
    }

    /// The next device, as the record the library gave.
    pub fn next_sys(&mut self) -> (r: Option<&sys::Device>)
        requires
            old(self).wf(),
        ensures
            final(self).wf(),
            old(self).spec_remaining().len() == 0 ==> r is None && final(self).spec_remaining()
                == old(self).spec_remaining(),
            old(self).spec_remaining().len() > 0 ==> r == Some(&old(self).spec_remaining()[0])
                && final(self).spec_remaining() == old(self).spec_remaining().drop_first(),
    {
        if self.pos == self.devices.len() {
            return None;
        }
        let i = self.pos;
        self.pos = self.pos + 1;
        proof {
            assert(self.devices@.subrange(self.pos as int, self.devices@.len() as int) =~= old(
                self,
            ).spec_remaining().drop_first());
        }
        Some(&self.devices[i])
    }

    /// Writes the next description into `into`, reusing its buffer. Returns `false`,
    /// leaving `into` unchanged, when no device is left.
    pub fn next_into(&mut self, into: &mut DeviceDescription) -> (r: bool)
        requires
            old(self).wf(),
        ensures
            final(self).wf(),
            r == (old(self).spec_remaining().len() > 0),
            !r ==> *final(into) == *old(into) && final(self).spec_remaining() == old(
                self,
            ).spec_remaining(),
            r ==> final(into).describes(old(self).spec_remaining()[0]) && final(self).spec_remaining() == old(self).spec_remaining().drop_first(),
    {
        if self.pos == self.devices.len() {
            return false;
        }
        proof {
            assert(fits(self.devices@[self.pos as int]));
        }
        DeviceDescription::from_sys_into(into, &self.devices[self.pos]);
        self.pos = self.pos + 1;
        proof {
            assert(self.devices@.subrange(self.pos as int, self.devices@.len() as int) =~= old(
                self,
            ).spec_remaining().drop_first());
        }
        true
    }

    /// The next description, if a device is left.
    pub fn next(&mut self) -> (r: Option<DeviceDescription>)
        requires
            old(self).wf(),
        ensures
            final(self).wf(),
            old(self).spec_remaining().len() == 0 ==> r is None && final(self).spec_remaining()
                == old(self).spec_remaining(),
            old(self).spec_remaining().len() > 0 ==> (r matches Some(d) && d.describes(
                old(self).spec_remaining()[0],
            )) && final(self).spec_remaining() == old(self).spec_remaining().drop_first(),
    {
        let mut d = DeviceDescription::empty();
        if self.next_into(&mut d) {
            Some(d)
        } else {
            None
        }
    }

    /// The descriptions of all devices left, in order.
    pub fn to_vec(self) -> (r: Vec<DeviceDescription>)
        requires
            self.wf(),
        ensures
            r@.len() == self.spec_remaining().len(),
            forall|i: int| 0 <= i < r@.len() ==> #[trigger] r@[i].describes(self.spec_remaining()[i]),
    {
        let mut it = self;
        let mut out: Vec<DeviceDescription> = Vec::new();
        let ghost all = it.spec_remaining();
        while !it.is_empty()
            invariant
                it.wf(),
                out@.len() + it.spec_remaining().len() == all.len(),
                it.spec_remaining() == all.subrange(out@.len() as int, all.len() as int),
                forall|i: int| 0 <= i < out@.len() ==> #[trigger] out@[i].describes(all[i]),
            decreases it.spec_remaining().len(),
        {
            let d = it.next();
            match d {
                Some(d) => {
                    out.push(d);
                    proof {
                        assert(it.spec_remaining() =~= all.subrange(out@.len() as int, all.len() as int));
                    }
                },
                None => {},
            }
        }
        out
    }

    /// The descriptions of all devices left, in order, as a boxed slice.
    pub fn to_boxed_slice(self) -> (r: Box<[DeviceDescription]>)
        requires
            self.wf(),
        ensures
            r@.len() == self.spec_remaining().len(),
            forall|i: int| 0 <= i < r@.len() ==> #[trigger] r@[i].describes(self.spec_remaining()[i]),
    {
        into_boxed(self.to_vec())
    }
}

/// Relies on `Vec::into_boxed_slice`: the boxed slice holds the vector's elements in order.
#[verifier::external_body]
fn into_boxed(v: Vec<DeviceDescription>) -> (r: Box<[DeviceDescription]>)
    ensures
        r@ == v@,
{
    v.into_boxed_slice()
}

} // verus!
