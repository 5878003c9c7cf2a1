# zenithta

Technical analysis indicators (SMA, EMA, RSI, MACD, ROC, ATR, CMF) for Python,
split in two:

- `src/` — the verified library: which array shapes are read as a price series
  (`shape`), the checks each indicator makes of its parameters and the number
  and alignment of the values it gives (`layout`), the messages refused inputs
  are answered with (`error`, `text`), and the laws that tie these together
  (`window`).
- `app/` — the Python extension module: reads pandas/NumPy inputs, runs the
  floating-point arithmetic of each indicator over the layout the library
  planned, and raises `ValueError` with the library's messages.
