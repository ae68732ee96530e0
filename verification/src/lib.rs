//! Verified core of the Christmas rattlesnake: the LM1602 LCD protocol over an I2C
//! backpack, the light-strand rattle controller, the colour cycle of the status LED and
//! the distance arithmetic of the HC-SR04 sensor.

pub mod bus;
pub mod lcd_lm1602_i2c_driver;
pub mod lcdcontrol;
pub mod rattlercontrol;
pub mod colorcontrol;
pub mod hc_sr04;
pub mod motion;
