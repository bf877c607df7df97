use dcf77_chrono::dcf77::{
    code_dcf77, compute_pulse, create_pulse, decode_dcf77, SectionInBitfield,
};

#[test]
fn test_pulses() {
    let bit_weights: [u32; 8] = [1, 2, 4, 8, 10, 20, 40, 80];
    let mut mask: u64 = 0x0;
    for number_bits in 0..bit_weights.len() {
        mask |= 1 << number_bits;
        let top: u32 = bit_weights[0..=number_bits].iter().sum();
        for value in 0..=top {
            let output = compute_pulse(create_pulse(value, mask).into(), mask);
            assert!(value == output)
        }
    }
}

#[test]
fn test_coder_decoder() {
    let bit_weights: [u32; 8] = [1, 2, 4, 8, 10, 20, 40, 80];
    let mut section = SectionInBitfield {
        data_bit_mask: 0,
        data_position: 0,
        parity_mask: 0,
        max_data: 0,
    };
    for number_bits in 0..bit_weights.len() {
        section.data_bit_mask |= 1 << number_bits;
        section.max_data = bit_weights[0..=number_bits].iter().sum();
        for value in 0..=section.max_data {
            match code_dcf77(value, section) {
                Ok(coded_value) => match decode_dcf77(coded_value, section) {
                    Ok(output) => {
                        assert!(value == output)
                    }
                    Err(data) => {
                        println!("{:?}", data)
                    }
                },
                Err(data) => {
                    println!("{:?}", data)
                }
            }
        }
    }
}
