use tmp006::{
    ConversionRate, Error, MockError, MockI2c, MockTransaction, NbError, SensorData, SlaveAddr,
    Tmp006,
};

const DEV_ADDR: u8 = 0b100_0000;

const REG_V_OBJECT: u8 = 0x00;
const REG_TEMP_AMBIENT: u8 = 0x01;
const REG_CONFIG: u8 = 0x02;
const REG_MANUFAC_ID: u8 = 0xFE;
const REG_DEVICE_ID: u8 = 0xFE;

const BF_SW_RESET: u8 = 0b1000_0000;
const BF_MOD: u8 = 0b0111_0000;
const BF_CR2: u8 = 0b0000_1000;
const BF_CR1: u8 = 0b0000_0100;
const BF_CR0: u8 = 0b0000_0010;
const BF_DRDY_EN: u8 = 0b0000_0001;

const CONFIG_DEFAULT: u8 = BF_MOD | BF_CR1;
const CONFIG_RDY_LOW: u8 = 0b1000_0000;

fn new(transactions: Vec<MockTransaction>) -> Tmp006<MockI2c> {
    Tmp006::new(MockI2c::new(transactions), SlaveAddr::default())
}

fn destroy(tmp: Tmp006<MockI2c>) {
    assert!(tmp.destroy().done());
}

#[test]
fn can_create() {
    let tmp = new(vec![]);
    destroy(tmp);
}

#[test]
fn can_enable() {
    let trans = vec![MockTransaction::write(
        DEV_ADDR,
        vec![REG_CONFIG, CONFIG_DEFAULT, 0],
    )];
    let mut tmp = new(trans);
    tmp.enable().unwrap();
    destroy(tmp);
}

#[test]
fn can_disable() {
    let trans = vec![MockTransaction::write(
        DEV_ADDR,
        vec![REG_CONFIG, CONFIG_DEFAULT & !BF_MOD, 0],
    )];
    let mut tmp = new(trans);
    tmp.disable().unwrap();
    destroy(tmp);
}

#[test]
fn can_reset() {
    let trans = vec![MockTransaction::write(
        DEV_ADDR,
        vec![REG_CONFIG, CONFIG_DEFAULT | BF_SW_RESET, 0],
    )];
    let mut tmp = new(trans);
    tmp.reset().unwrap();
    destroy(tmp);
}

#[test]
fn reset_restores_default_config() {
    // After a completed reset the cached state equals the default register,
    // so a following enable() reproduces the default-based write.
    let trans = vec![
        MockTransaction::write(DEV_ADDR, vec![REG_CONFIG, BF_DRDY_EN | CONFIG_DEFAULT, 0]),
        MockTransaction::write(
            DEV_ADDR,
            vec![REG_CONFIG, BF_DRDY_EN | CONFIG_DEFAULT | BF_SW_RESET, 0],
        ),
        MockTransaction::write(DEV_ADDR, vec![REG_CONFIG, CONFIG_DEFAULT, 0]),
    ];
    let mut tmp = new(trans);
    tmp.enable_drdy_pin().unwrap();
    tmp.reset().unwrap();
    tmp.enable().unwrap();
    destroy(tmp);
}

#[test]
fn can_enable_drdy() {
    let trans = vec![MockTransaction::write(
        DEV_ADDR,
        vec![REG_CONFIG, CONFIG_DEFAULT | BF_DRDY_EN, 0],
    )];
    let mut tmp = new(trans);
    tmp.enable_drdy_pin().unwrap();
    destroy(tmp);
}

#[test]
fn can_disable_drdy() {
    let trans = vec![MockTransaction::write(
        DEV_ADDR,
        vec![REG_CONFIG, CONFIG_DEFAULT, 0],
    )];
    let mut tmp = new(trans);
    tmp.disable_drdy_pin().unwrap();
    destroy(tmp);
}

fn get_config_high(cr2: bool, cr1: bool, cr0: bool) -> u8 {
    let mut config = BF_MOD;
    if cr2 {
        config |= BF_CR2;
    }
    if cr1 {
        config |= BF_CR1;
    }
    if cr0 {
        config |= BF_CR0;
    }
    config
}

fn check_set_conversion_rate(rate: ConversionRate, cr2: bool, cr1: bool, cr0: bool) {
    let trans = vec![MockTransaction::write(
        DEV_ADDR,
        vec![REG_CONFIG, get_config_high(cr2, cr1, cr0), 0],
    )];
    let mut tmp = new(trans);
    tmp.set_conversion_rate(rate).unwrap();
    destroy(tmp);
}

#[test]
fn can_set_cr4() {
    check_set_conversion_rate(ConversionRate::Cps4, false, false, false);
}

#[test]
fn can_set_cr2() {
    check_set_conversion_rate(ConversionRate::Cps2, false, false, true);
}

#[test]
fn can_set_cr1() {
    check_set_conversion_rate(ConversionRate::Cps1, false, true, false);
}

#[test]
fn can_set_cr0_5() {
    check_set_conversion_rate(ConversionRate::Cps0_5, false, true, true);
}

#[test]
fn can_set_cr0_25() {
    check_set_conversion_rate(ConversionRate::Cps0_25, true, false, false);
}

#[test]
fn set_conversion_rate_preserves_drdy_enable() {
    let trans = vec![
        MockTransaction::write(DEV_ADDR, vec![REG_CONFIG, CONFIG_DEFAULT | BF_DRDY_EN, 0]),
        MockTransaction::write(DEV_ADDR, vec![REG_CONFIG, BF_MOD | BF_CR0 | BF_DRDY_EN, 0]),
    ];
    let mut tmp = new(trans);
    tmp.enable_drdy_pin().unwrap();
    tmp.set_conversion_rate(ConversionRate::Cps2).unwrap();
    destroy(tmp);
}

fn check_sensor_data(expected: SensorData, msb_v: u8, lsb_v: u8, msb_t: u8, lsb_t: u8) {
    let trans = vec![
        MockTransaction::write_read(
            DEV_ADDR,
            vec![REG_CONFIG],
            vec![CONFIG_DEFAULT, CONFIG_RDY_LOW],
        ),
        MockTransaction::write_read(DEV_ADDR, vec![REG_V_OBJECT], vec![msb_v, lsb_v]),
        MockTransaction::write_read(DEV_ADDR, vec![REG_TEMP_AMBIENT], vec![msb_t, lsb_t]),
    ];
    let mut tmp = new(trans);
    let current = tmp.read_sensor_data().unwrap();
    assert_eq!(expected, current);
    destroy(tmp);
}

#[test]
fn can_read_voltage_max() {
    let expected = SensorData {
        object_voltage: 32767,
        ambient_temperature: 0,
    };
    check_sensor_data(expected, 0x7F, 0xFF, 0, 0);
}

#[test]
fn can_read_voltage_0() {
    let expected = SensorData {
        object_voltage: 0,
        ambient_temperature: 0,
    };
    check_sensor_data(expected, 0, 0, 0, 0);
}

#[test]
fn can_read_voltage_min() {
    let expected = SensorData {
        object_voltage: -32768,
        ambient_temperature: 0,
    };
    check_sensor_data(expected, 0x80, 0x00, 0, 0);
}

#[test]
fn can_read_ambient_t_max() {
    let expected = SensorData {
        object_voltage: 0,
        ambient_temperature: 8191,
    };
    check_sensor_data(expected, 0, 0, 0x7F, 0xFC);
}

#[test]
fn can_read_ambient_t_min() {
    let expected = SensorData {
        object_voltage: 0,
        ambient_temperature: -8192,
    };
    check_sensor_data(expected, 0, 0, 0x80, 0x00);
}

#[test]
fn can_read_data_ready() {
    let trans = vec![MockTransaction::write_read(
        DEV_ADDR,
        vec![REG_CONFIG],
        vec![0, CONFIG_RDY_LOW],
    )];
    let mut tmp = new(trans);
    assert!(tmp.is_data_ready().unwrap());
    destroy(tmp);
}

#[test]
fn can_read_data_not_ready() {
    let trans = vec![MockTransaction::write_read(
        DEV_ADDR,
        vec![REG_CONFIG],
        vec![0, 0],
    )];
    let mut tmp = new(trans);
    assert!(!tmp.is_data_ready().unwrap());
    destroy(tmp);
}

#[test]
fn can_read_manuf() {
    let trans = vec![MockTransaction::write_read(
        DEV_ADDR,
        vec![REG_MANUFAC_ID],
        vec![0x54, 0x49],
    )];
    let mut tmp = new(trans);
    assert_eq!(0x5449, tmp.read_manufacturer_id().unwrap());
    destroy(tmp);
}

#[test]
fn can_read_dev_id() {
    let trans = vec![MockTransaction::write_read(
        DEV_ADDR,
        vec![REG_DEVICE_ID],
        vec![0x00, 0x67],
    )];
    let mut tmp = new(trans);
    assert_eq!(0x0067, tmp.read_device_id().unwrap());
    destroy(tmp);
}

#[test]
fn cannot_read_data_if_not_ready() {
    let trans = vec![MockTransaction::write_read(
        DEV_ADDR,
        vec![REG_CONFIG],
        vec![0, 0],
    )];
    let mut tmp = new(trans);
    let result = tmp.read_sensor_data();
    match result {
        Err(NbError::WouldBlock) => (),
        _ => panic!("Would not block."),
    }
    destroy(tmp);
}

#[test]
fn write_failure_reports_bus_error() {
    // An empty plan makes every bus call fail, so the control operation
    // surfaces the transport's error.
    let mut tmp = new(vec![]);
    match tmp.enable() {
        Err(Error::I2C(MockError)) => (),
        _ => panic!("expected a bus error"),
    }
    destroy(tmp);
}

#[test]
fn read_failure_reports_bus_error() {
    let mut tmp = new(vec![]);
    match tmp.read_manufacturer_id() {
        Err(Error::I2C(MockError)) => (),
        _ => panic!("expected a bus error"),
    }
    destroy(tmp);
}

#[test]
fn read_failure_mid_sequence_reports_bus_error() {
    // The data-ready poll succeeds, the object-voltage read fails: the
    // operation surfaces a hard error, not a retry signal.
    let trans = vec![MockTransaction::write_read(
        DEV_ADDR,
        vec![REG_CONFIG],
        vec![CONFIG_DEFAULT, CONFIG_RDY_LOW],
    )];
    let mut tmp = new(trans);
    match tmp.read_sensor_data() {
        Err(NbError::Other(Error::I2C(MockError))) => (),
        _ => panic!("expected a bus error"),
    }
    destroy(tmp);
}

#[test]
fn alternative_address_is_used_on_the_bus() {
    let addr = DEV_ADDR | 0b101;
    let trans = vec![MockTransaction::write(
        addr,
        vec![REG_CONFIG, CONFIG_DEFAULT, 0],
    )];
    let mock = MockI2c::new(trans);
    let mut tmp = Tmp006::new(mock, SlaveAddr::Alternative(true, false, true));
    tmp.enable().unwrap();
    destroy(tmp);
}
