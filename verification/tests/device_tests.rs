use minirtos::drivers::gpio::rp235x_gpio::Rp235xGpio;
use minirtos::drivers::i2c::rp235x_i2c::{I2cId, Rp235xI2c};
use minirtos::drivers::input::gt911::Gt911;
use minirtos::drivers::input::picocalc_kb::PicocalcKeyboard;
use minirtos::drivers::input::ws114_gpio_kb::Ws114GpioKeyboard;
use minirtos::drivers::lcd::ili9488::Ili9488Lcd;
use minirtos::drivers::lcd::st7789vw::St7789vwLcd;
use minirtos::drivers::lcd::st7796su1::St7796su1Lcd;
use minirtos::drivers::spi::rp235x_pl022_spi::{Pl022Spi, SpiId};
use minirtos::drivers::uart::rp235x_pl011_uart::{Pl011Uart, UartId};
use minirtos::error::DevError;

#[test]
fn device_names() {
    assert_eq!(Gt911::new(0x5d).compatible(), "GT911 Touchpanel");
    assert_eq!(Rp235xGpio::<u8, u8>::new().compatible(), "RP235x GPIO");
    assert_eq!(Pl022Spi::new(SpiId::SPI0).compatible(), "RP235x PL022 SPI");
    assert_eq!(Pl011Uart::<u8>::new(UartId::UART0).compatible(), "RP235x PL011 UART");
    assert_eq!(Rp235xI2c::new(I2cId::I2C0).compatible(), "RP235x I2C");
    assert_eq!(St7789vwLcd::new(8, 12, 9).compatible(), "ST7789VW LCD");
    assert_eq!(St7796su1Lcd::<320, 320>::new(14, 15, 13).compatible(), "ST7796SU1 LCD");
    assert_eq!(Ili9488Lcd::<320, 480>::new(14, 15, 13).compatible(), "ILI9488 LCD");
    assert_eq!(Ws114GpioKeyboard::new().compatible(), "SW114 GPIO Buttons");
    assert_eq!(PicocalcKeyboard::new(0x1f).compatible(), "Picocalc Keyboayd");
}

#[test]
fn plain_device_access() {
    let t = Gt911::new(0x5d);
    assert_eq!(t.init(), Ok(()));
    assert_eq!(t.device_read(&[0; 4]), Err(DevError::Unsupported));
    assert_eq!(t.device_write(&[1, 2]), Err(DevError::Unsupported));
    assert_eq!(PicocalcKeyboard::new(0x1f).device_write(&[1]), Err(DevError::Unsupported));
    assert_eq!(Ws114GpioKeyboard::new().device_read(&[0; 2]), Err(DevError::Unsupported));
    assert_eq!(Ili9488Lcd::<320, 480>::new(14, 15, 13).device_write(&[1, 2, 3]), Ok(0));
    assert_eq!(St7796su1Lcd::<320, 320>::new(14, 15, 13).device_read(&[0]), Err(DevError::Unsupported));
    assert_eq!(Pl022Spi::new(SpiId::SPI1).device_read(&[0]), Err(DevError::Unsupported));
}
