use hypercraft::riscv::vcpu::{VCpu, VmCpus};
use hypercraft::riscv::vm::{GuestPageTableTrait, VM};

struct Table(usize);

impl GuestPageTableTrait for Table {
    fn root_token(&self) -> usize {
        self.0
    }

    fn token(&self) -> usize {
        self.0
    }
}

fn machine() -> VM<Table> {
    let mut vcpus = VmCpus::new();
    vcpus.add_vcpu(VCpu::new(0, 0x9000_0000)).unwrap();
    VM::new(vcpus, Table(0x8000_0000_0008_0000)).unwrap()
}

#[test]
fn empty_input_buffer_reads_the_sentinel() {
    let mut vm = machine();
    assert_eq!(vm.read_from_input_buffer(), usize::MAX);
    assert_eq!(vm.read_from_input_buffer(), usize::MAX);
}

#[test]
fn input_buffer_yields_characters_in_push_order() {
    let mut vm = machine();
    vm.add_char_to_input_buffer(b'a' as usize);
    vm.add_char_to_input_buffer(b'b' as usize);
    vm.add_char_to_input_buffer(b'c' as usize);
    assert_eq!(vm.read_from_input_buffer(), b'a' as usize);
    assert_eq!(vm.read_from_input_buffer(), b'b' as usize);
    vm.add_char_to_input_buffer(b'd' as usize);
    assert_eq!(vm.read_from_input_buffer(), b'c' as usize);
    assert_eq!(vm.read_from_input_buffer(), b'd' as usize);
    assert_eq!(vm.read_from_input_buffer(), usize::MAX);
}
