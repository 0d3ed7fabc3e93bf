use vstd::prelude::*;

verus! {

/// One end of a cable: a plugin of a device, both named by index, the
/// device in the rack's list and the plugin in that device's table.
#[derive(Clone, Copy, Debug, PartialEq, Eq, Structural)]
pub struct Connection {
    pub device: usize,
    pub plugin: usize,
}

impl Connection {
    pub fn new(device: usize, plugin: usize) -> (r: Connection)
        ensures
            r == (Connection { device, plugin }),
    {
        Connection { device, plugin }
    }
}

/// A cable from an input plugin to an output plugin.
#[derive(Clone, Copy, Debug, PartialEq, Eq, Structural)]
pub struct Cable {
    pub input: Connection,
    pub output: Connection,
}

impl Cable {
    /// A cable between the given (device, plugin) pairs.
    pub fn new(input: (usize, usize), output: (usize, usize)) -> (r: Cable)
        ensures
            r.input == (Connection { device: input.0, plugin: input.1 }),
            r.output == (Connection { device: output.0, plugin: output.1 }),
    {
        let (in_device, in_plugin) = input;
        let (out_device, out_plugin) = output;
        Cable {
            input: Connection::new(in_device, in_plugin),
            output: Connection::new(out_device, out_plugin),
        }
    }
}

} // verus!
